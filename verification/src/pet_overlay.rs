//! The overlay: celebration tiers, one-off toasts, the feeding cooldown and the
//! walk phase. It reads the mood and never writes it.
use vstd::prelude::*;

use crate::clock::{elapsed, instant_now, millis_since, now_epoch_ms, sat_add};
use crate::hook_state::HookState;
use crate::native_pulse::NativePulse;
use crate::pet_core::PetMood;
use crate::text::text_eq;

verus! {

/// How strongly a finished (or failed) task is celebrated, by how long it took.
#[derive(Debug, Clone, Copy, PartialEq, Eq, Structural)]
pub enum CelebrationTier {
    /// Effortless (successes only)
    XS,
    /// Quick / a small stumble
    S,
    /// Hard fight / stuck
    M,
    /// Marathon / long failure
    L,
}

impl CelebrationTier {
    pub open spec fn name(self) -> Seq<char> {
        match self {
            CelebrationTier::XS => "xs"@,
            CelebrationTier::S => "s"@,
            CelebrationTier::M => "m"@,
            CelebrationTier::L => "l"@,
        }
    }

    /// Tiers in increasing strength.
    pub open spec fn rank(self) -> int {
        match self {
            CelebrationTier::XS => 0,
            CelebrationTier::S => 1,
            CelebrationTier::M => 2,
            CelebrationTier::L => 3,
        }
    }

    pub fn as_str(self) -> (r: &'static str)
        ensures
            r@ == self.name(),
    {
        match self {
            CelebrationTier::XS => "xs",
            CelebrationTier::S => "s",
            CelebrationTier::M => "m",
            CelebrationTier::L => "l",
        }
    }
}

/// Success tiers: below 20 s, below 2 min, below 8 min, and longer.
pub const SUCCESS_S_MS: u64 = 20_000;
pub const SUCCESS_M_MS: u64 = 120_000;
pub const SUCCESS_L_MS: u64 = 480_000;

/// Failure tiers: below 45 s, below 2 min, and longer.
pub const ERROR_M_MS: u64 = 45_000;
pub const ERROR_L_MS: u64 = 120_000;

/// Time (ms) between two feedings.
pub const FEED_COOLDOWN_MS: u64 = 30_000;

pub open spec fn success_tier(ms: u64) -> CelebrationTier {
    if ms < SUCCESS_S_MS {
        CelebrationTier::XS
    } else if ms < SUCCESS_M_MS {
        CelebrationTier::S
    } else if ms < SUCCESS_L_MS {
        CelebrationTier::M
    } else {
        CelebrationTier::L
    }
}

pub open spec fn error_tier(ms: u64) -> CelebrationTier {
    if ms < ERROR_M_MS {
        CelebrationTier::S
    } else if ms < ERROR_L_MS {
        CelebrationTier::M
    } else {
        CelebrationTier::L
    }
}

fn tier_for_success(ms: u64) -> (r: CelebrationTier)
    ensures
        r == success_tier(ms),
{
    if ms < SUCCESS_S_MS {
        CelebrationTier::XS
    } else if ms < SUCCESS_M_MS {
        CelebrationTier::S
    } else if ms < SUCCESS_L_MS {
        CelebrationTier::M
    } else {
        CelebrationTier::L
    }
}

fn tier_for_error(ms: u64) -> (r: CelebrationTier)
    ensures
        r == error_tier(ms),
{
    if ms < ERROR_M_MS {
        CelebrationTier::S
    } else if ms < ERROR_L_MS {
        CelebrationTier::M
    } else {
        CelebrationTier::L
    }
}

/// What the overlay keeps in `~/.nixie/overlay.json`.
#[derive(Debug, Clone, Copy, Default)]
pub struct OverlayPersist {
    pub last_feed_at_ms: u64,
    /// 8-bit sound effects; off by default.
    pub sound_enabled: bool,
}

/// The walk state machine.
#[derive(Debug, Clone, Copy, PartialEq, Eq, Structural)]
pub enum WalkPhase {
    /// Walking is switched off
    Off,
    /// Switched on, not following
    Idle,
    /// The cursor rests over the window
    HoverIntent,
    /// The window follows the cursor
    Following,
}

/// Events for the UI; none of them changes the mood.
#[derive(Debug, Clone)]
pub enum OverlayEvent {
    /// A tool has just succeeded.
    ToolSuccessToast { message: String },
    /// A file edit has completed.
    FileEditToast { message: String },
    /// The user is typing.
    UserTypingToast { message: String },
    /// A task ended in success or failure.
    Celebration { tier: CelebrationTier, task_duration_ms: u64, is_error: bool },
    /// Feeding became available or unavailable.
    FeedAvailabilityChanged { can_feed: bool },
    /// The walk phase changed.
    WalkPhaseChanged { phase: WalkPhase },
}

pub enum OverlayEventView {
    ToolSuccessToast { message: Seq<char> },
    FileEditToast { message: Seq<char> },
    UserTypingToast { message: Seq<char> },
    Celebration { tier: CelebrationTier, task_duration_ms: u64, is_error: bool },
    FeedAvailabilityChanged { can_feed: bool },
    WalkPhaseChanged { phase: WalkPhase },
}

impl View for OverlayEvent {
    type V = OverlayEventView;

    open spec fn view(&self) -> OverlayEventView {
        match self {
            OverlayEvent::ToolSuccessToast { message } => OverlayEventView::ToolSuccessToast {
                message: message@,
            },
            OverlayEvent::FileEditToast { message } => OverlayEventView::FileEditToast {
                message: message@,
            },
            OverlayEvent::UserTypingToast { message } => OverlayEventView::UserTypingToast {
                message: message@,
            },
            OverlayEvent::Celebration { tier, task_duration_ms, is_error } =>
                OverlayEventView::Celebration {
                tier: *tier,
                task_duration_ms: *task_duration_ms,
                is_error: *is_error,
            },
            OverlayEvent::FeedAvailabilityChanged { can_feed } =>
                OverlayEventView::FeedAvailabilityChanged { can_feed: *can_feed },
            OverlayEvent::WalkPhaseChanged { phase } => OverlayEventView::WalkPhaseChanged {
                phase: *phase,
            },
        }
    }
}

pub open spec fn events_view(v: Seq<OverlayEvent>) -> Seq<OverlayEventView> {
    v.map_values(|e: OverlayEvent| e@)
}

/// What one overlay tick reads.
pub struct OverlayTickIn<'a> {
    pub hook: &'a HookState,
    pub mood: PetMood,
    pub prev_mood: PetMood,
    /// The latest native pulse (user typing and the like).
    pub pulse: &'a NativePulse,
}

/// What the overlay remembers between ticks; `feed_ready_at` is in ms on the
/// overlay's own monotonic clock.
pub struct OverlayModel {
    pub last_tool_success_ts: Option<u64>,
    pub last_file_edit_ts: Option<u64>,
    pub last_user_typing_ts: Option<u64>,
    pub last_celebrated_terminal_hook_ts: Option<u64>,
    pub feed_ready_at: Option<u64>,
    pub last_reported_can_feed: bool,
    pub walk_phase: WalkPhase,
    pub last_reported_walk: WalkPhase,
    pub sound_enabled: bool,
}

/// Feeding is possible unless the cooldown of the last feeding still runs.
pub open spec fn can_feed_at(ready_at: Option<u64>, now: u64) -> bool {
    match ready_at {
        None => true,
        Some(r) => now >= r,
    }
}

/// The overlay after a feeding at `now`: the cooldown runs until
/// `FEED_COOLDOWN_MS` later, and feeding is reported unavailable.
pub open spec fn after_feeding(o: OverlayModel, now: u64) -> OverlayModel {
    OverlayModel {
        feed_ready_at: Some(sat_add(now, FEED_COOLDOWN_MS)),
        last_reported_can_feed: false,
        ..o
    }
}

/// A terminal hook write at `hook_ts` deserves a celebration: always where it
/// has no time, else once per time.
pub open spec fn should_celebrate(last: Option<u64>, hook_ts: u64) -> bool {
    hook_ts == 0 || last != Some(hook_ts)
}

pub open spec fn mark_celebrated(last: Option<u64>, hook_ts: u64) -> Option<u64> {
    if hook_ts > 0 {
        Some(hook_ts)
    } else {
        last
    }
}

/// Task duration: from the submission the hook recorded to `epoch`; 0 without one.
pub open spec fn task_duration(hook: HookState, epoch: u64) -> u64 {
    match hook.task_started_at_ms {
        Some(s) => elapsed(epoch, s),
        None => 0,
    }
}

fn task_duration_from_hook(hook: &HookState, epoch_now: u64) -> (r: u64)
    ensures
        r == task_duration(*hook, epoch_now),
{
    match hook.task_started_at_ms {
        Some(s) => epoch_now.saturating_sub(s),
        None => 0,
    }
}

/// A toast keyed by a timestamp fires once per new timestamp.
pub open spec fn toast_due(last: Option<u64>, ts: Option<u64>) -> bool {
    match ts {
        Some(t) => last != Some(t),
        None => false,
    }
}

pub open spec fn typing_due(last: Option<u64>, pulse: NativePulse) -> bool {
    pulse.ts > 0 && last != Some(pulse.ts) && pulse.kind@ == "user_typing"@
}

pub open spec fn entered(mood: PetMood, prev: PetMood, target: PetMood) -> bool {
    mood == target && prev != target
}

/// Whether a tick celebrates a success, and whether it celebrates a failure,
/// given the hook write last celebrated.
pub open spec fn celebrations_due(
    last: Option<u64>,
    hook: HookState,
    mood: PetMood,
    prev: PetMood,
) -> (bool, bool) {
    let success = entered(mood, prev, PetMood::Success) && should_celebrate(last, hook.ts);
    let c1 = if success {
        mark_celebrated(last, hook.ts)
    } else {
        last
    };
    let error = entered(mood, prev, PetMood::Error) && should_celebrate(c1, hook.ts);
    (success, error)
}

/// The hook write last celebrated, after a tick.
pub open spec fn celebrated_after(
    last: Option<u64>,
    hook: HookState,
    mood: PetMood,
    prev: PetMood,
) -> Option<u64> {
    let (success, error) = celebrations_due(last, hook, mood, prev);
    if success || error {
        mark_celebrated(last, hook.ts)
    } else {
        last
    }
}

/// The state after one overlay tick.
pub open spec fn overlay_next(
    o: OverlayModel,
    hook: HookState,
    mood: PetMood,
    prev: PetMood,
    pulse: NativePulse,
    mono: u64,
) -> OverlayModel {
    OverlayModel {
        last_tool_success_ts: if toast_due(o.last_tool_success_ts, hook.tool_success_ts) {
            hook.tool_success_ts
        } else {
            o.last_tool_success_ts
        },
        last_file_edit_ts: if toast_due(o.last_file_edit_ts, hook.file_edit_success_ts) {
            hook.file_edit_success_ts
        } else {
            o.last_file_edit_ts
        },
        last_user_typing_ts: if typing_due(o.last_user_typing_ts, pulse) {
            Some(pulse.ts)
        } else {
            o.last_user_typing_ts
        },
        last_celebrated_terminal_hook_ts: celebrated_after(
            o.last_celebrated_terminal_hook_ts,
            hook,
            mood,
            prev,
        ),
        feed_ready_at: o.feed_ready_at,
        last_reported_can_feed: can_feed_at(o.feed_ready_at, mono),
        walk_phase: o.walk_phase,
        last_reported_walk: o.walk_phase,
        sound_enabled: o.sound_enabled,
    }
}

pub open spec fn one_if(b: bool, e: OverlayEventView) -> Seq<OverlayEventView> {
    if b {
        seq![e]
    } else {
        seq![]
    }
}

/// The toasts of a tick: tool success, file edit, user typing.
pub open spec fn toast_events(o: OverlayModel, hook: HookState, pulse: NativePulse) -> Seq<
    OverlayEventView,
> {
    one_if(
        toast_due(o.last_tool_success_ts, hook.tool_success_ts),
        OverlayEventView::ToolSuccessToast { message: "执行成功！"@ },
    ) + one_if(
        toast_due(o.last_file_edit_ts, hook.file_edit_success_ts),
        OverlayEventView::FileEditToast { message: "文件完成编辑！"@ },
    ) + one_if(
        typing_due(o.last_user_typing_ts, pulse),
        OverlayEventView::UserTypingToast { message: "哒哒哒"@ },
    )
}

/// The celebrations of a tick: one on entering Success, one on entering Error,
/// each at most once per hook write.
pub open spec fn celebration_events(
    last: Option<u64>,
    hook: HookState,
    mood: PetMood,
    prev: PetMood,
    epoch: u64,
) -> Seq<OverlayEventView> {
    let task_ms = task_duration(hook, epoch);
    let (success, error) = celebrations_due(last, hook, mood, prev);
    one_if(
        success,
        OverlayEventView::Celebration {
            tier: success_tier(task_ms),
            task_duration_ms: task_ms,
            is_error: false,
        },
    ) + one_if(
        error,
        OverlayEventView::Celebration {
            tier: error_tier(task_ms),
            task_duration_ms: task_ms,
            is_error: true,
        },
    )
}

/// Changes of feed availability and of walk phase, each reported once.
pub open spec fn status_events(o: OverlayModel, mono: u64) -> Seq<OverlayEventView> {
    let can_feed = can_feed_at(o.feed_ready_at, mono);
    one_if(
        can_feed != o.last_reported_can_feed,
        OverlayEventView::FeedAvailabilityChanged { can_feed },
    ) + one_if(
        o.walk_phase != o.last_reported_walk,
        OverlayEventView::WalkPhaseChanged { phase: o.walk_phase },
    )
}

/// The events of one overlay tick, in order: toasts, celebrations, status.
pub open spec fn overlay_events(
    o: OverlayModel,
    hook: HookState,
    mood: PetMood,
    prev: PetMood,
    pulse: NativePulse,
    epoch: u64,
    mono: u64,
) -> Seq<OverlayEventView> {
    toast_events(o, hook, pulse) + celebration_events(
        o.last_celebrated_terminal_hook_ts,
        hook,
        mood,
        prev,
        epoch,
    ) + status_events(o, mono)
}

/// Appends one event.
fn push_event(out: &mut Vec<OverlayEvent>, e: OverlayEvent)
    ensures
        events_view(final(out)@) == events_view(old(out)@).push(e@),
{
    out.push(e);
    assert(events_view(out@) =~= events_view(old(out)@).push(e@));
}

pub struct PetOverlay {
    last_tool_success_ts: Option<u64>,
    last_file_edit_ts: Option<u64>,
    last_user_typing_ts: Option<u64>,
    /// The hook write (`ts`) of the last terminal event celebrated.
    last_celebrated_terminal_hook_ts: Option<u64>,
    clock: std::time::Instant,
    /// When (ms on `clock`) the feeding cooldown ends.
    feed_ready_at: Option<u64>,
    last_reported_can_feed: bool,
    walk_phase: WalkPhase,
    last_reported_walk: WalkPhase,
    sound_enabled: bool,
}

impl View for PetOverlay {
    type V = OverlayModel;

    closed spec fn view(&self) -> OverlayModel {
        OverlayModel {
            last_tool_success_ts: self.last_tool_success_ts,
            last_file_edit_ts: self.last_file_edit_ts,
            last_user_typing_ts: self.last_user_typing_ts,
            last_celebrated_terminal_hook_ts: self.last_celebrated_terminal_hook_ts,
            feed_ready_at: self.feed_ready_at,
            last_reported_can_feed: self.last_reported_can_feed,
            walk_phase: self.walk_phase,
            last_reported_walk: self.last_reported_walk,
            sound_enabled: self.sound_enabled,
        }
    }
}

/// The overlay as it starts at epoch time `epoch` from what was persisted and
/// the native pulse found on disk at boot (its clock reads 0 at that moment).
pub open spec fn overlay_start(persisted: OverlayPersist, boot_pulse: NativePulse, epoch: u64) -> OverlayModel {
    let since = elapsed(epoch, persisted.last_feed_at_ms);
    let ready = if persisted.last_feed_at_ms > 0 && since < FEED_COOLDOWN_MS {
        Some((FEED_COOLDOWN_MS - since) as u64)
    } else {
        None
    };
    OverlayModel {
        last_tool_success_ts: None,
        last_file_edit_ts: None,
        last_user_typing_ts: if boot_pulse.ts > 0 && boot_pulse.kind@ == "user_typing"@ {
            Some(boot_pulse.ts)
        } else {
            None
        },
        last_celebrated_terminal_hook_ts: None,
        feed_ready_at: ready,
        last_reported_can_feed: can_feed_at(ready, 0),
        walk_phase: WalkPhase::Off,
        last_reported_walk: WalkPhase::Off,
        sound_enabled: persisted.sound_enabled,
    }
}

impl PetOverlay {
    /// The overlay at epoch time `epoch_now`. A typing pulse already on disk at
    /// boot counts as shown, so an old pulse gives no toast.
    pub fn new_at(persisted: OverlayPersist, boot_pulse: &NativePulse, epoch_now: u64) -> (r: Self)
        ensures
            r@ == overlay_start(persisted, *boot_pulse, epoch_now),
    {
        let feed_ready_at = if persisted.last_feed_at_ms > 0 {
            let since = epoch_now.saturating_sub(persisted.last_feed_at_ms);
            if since < FEED_COOLDOWN_MS {
                Some(FEED_COOLDOWN_MS - since)
            } else {
                None
            }
        } else {
            None
        };
        let can_feed = Self::can_feed_now(feed_ready_at, 0);
        let last_user_typing_ts = if boot_pulse.ts > 0 && text_eq(
            boot_pulse.kind.as_str(),
            "user_typing",
        ) {
            Some(boot_pulse.ts)
        } else {
            None
        };
        PetOverlay {
            last_tool_success_ts: None,
            last_file_edit_ts: None,
            last_user_typing_ts,
            last_celebrated_terminal_hook_ts: None,
            clock: instant_now(),
            feed_ready_at,
            last_reported_can_feed: can_feed,
            walk_phase: WalkPhase::Off,
            last_reported_walk: WalkPhase::Off,
            sound_enabled: persisted.sound_enabled,
        }
    }

    /// The overlay now, by the system clock.
    pub fn new(persisted: OverlayPersist, boot_pulse: &NativePulse) -> (r: Self)
        ensures
            exists|epoch: u64|
                #![trigger overlay_start(persisted, *boot_pulse, epoch)]
                r@ == overlay_start(persisted, *boot_pulse, epoch),
    {
        let epoch = now_epoch_ms();
        let r = Self::new_at(persisted, boot_pulse, epoch);
        assert(r@ == overlay_start(persisted, *boot_pulse, epoch));
        r
    }

    pub fn sound_enabled(&self) -> (r: bool)
        ensures
            r == self@.sound_enabled,
    {
        self.sound_enabled
    }

    /// Switches the sound effects and returns the new setting.
    pub fn toggle_sound(&mut self) -> (r: bool)
        ensures
            r == !old(self)@.sound_enabled,
            final(self)@ == (OverlayModel { sound_enabled: r, ..old(self)@ }),
    {
        self.sound_enabled = !self.sound_enabled;
        self.sound_enabled
    }

    fn can_feed_now(ready_at: Option<u64>, now: u64) -> (r: bool)
        ensures
            r == can_feed_at(ready_at, now),
    {
        match ready_at {
            None => true,
            Some(r) => now >= r,
        }
    }

    /// A feeding at monotonic time `now`: refused while the cooldown runs,
    /// else recorded, starting a new cooldown.
    pub fn register_feed_at(&mut self, now: u64) -> (r: bool)
        ensures
            r == can_feed_at(old(self)@.feed_ready_at, now),
            r ==> final(self)@ == after_feeding(old(self)@, now),
            !r ==> final(self)@ == old(self)@,
    {
        if !Self::can_feed_now(self.feed_ready_at, now) {
            return false;
        }
        self.feed_ready_at = Some(now.saturating_add(FEED_COOLDOWN_MS));
        self.last_reported_can_feed = false;
        true
    }

    /// A feeding now, by the overlay's clock.
    pub fn register_feed(&mut self) -> (r: bool)
        ensures
            exists|now: u64|
                #![trigger can_feed_at(old(self)@.feed_ready_at, now)]
                {
                    &&& r == can_feed_at(old(self)@.feed_ready_at, now)
                    &&& r ==> final(self)@ == after_feeding(old(self)@, now)
                },
            !r ==> final(self)@ == old(self)@,
    {
        let now = millis_since(&self.clock);
        let r = self.register_feed_at(now);
        assert(r == can_feed_at(old(self)@.feed_ready_at, now));
        r
    }

    /// Switches walking on (phase Idle) or off (phase Off).
    pub fn set_walk_enabled(&mut self, enabled: bool)
        ensures
            final(self)@ == (OverlayModel {
                walk_phase: if enabled {
                    WalkPhase::Idle
                } else {
                    WalkPhase::Off
                },
                ..old(self)@
            }),
    {
        self.walk_phase = if enabled {
            WalkPhase::Idle
        } else {
            WalkPhase::Off
        };
    }

    /// Whether a terminal hook write at `hook_ts` is to be celebrated now.
    pub fn should_emit_terminal_celebration(&self, hook_ts: u64) -> (r: bool)
        ensures
            r == should_celebrate(self@.last_celebrated_terminal_hook_ts, hook_ts),
    {
        if hook_ts == 0 {
            return true;
        }
        match self.last_celebrated_terminal_hook_ts {
            Some(t) => t != hook_ts,
            None => true,
        }
    }

    /// Records the terminal hook write `hook_ts` as celebrated (a write without
    /// a time is not recorded).
    pub fn mark_terminal_celebrated(&mut self, hook_ts: u64)
        ensures
            final(self)@ == (OverlayModel {
                last_celebrated_terminal_hook_ts: mark_celebrated(
                    old(self)@.last_celebrated_terminal_hook_ts,
                    hook_ts,
                ),
                ..old(self)@
            }),
    {
        if hook_ts > 0 {
            self.last_celebrated_terminal_hook_ts = Some(hook_ts);
        }
    }

    fn push_toasts(&mut self, hook: &HookState, pulse: &NativePulse, out: &mut Vec<OverlayEvent>)
        ensures
            events_view(final(out)@) == events_view(old(out)@) + toast_events(old(self)@, *hook, *pulse),
            final(self)@ == (OverlayModel {
                last_tool_success_ts: if toast_due(old(self)@.last_tool_success_ts, hook.tool_success_ts) {
                    hook.tool_success_ts
                } else {
                    old(self)@.last_tool_success_ts
                },
                last_file_edit_ts: if toast_due(old(self)@.last_file_edit_ts, hook.file_edit_success_ts) {
                    hook.file_edit_success_ts
                } else {
                    old(self)@.last_file_edit_ts
                },
                last_user_typing_ts: if typing_due(old(self)@.last_user_typing_ts, *pulse) {
                    Some(pulse.ts)
                } else {
                    old(self)@.last_user_typing_ts
                },
                ..old(self)@
            }),
    {
        let ghost o = self@;
        let ghost start = events_view(out@);
        let tool_due = match hook.tool_success_ts {
            Some(ts) => match self.last_tool_success_ts {
                Some(last) => last != ts,
                None => true,
            },
            None => false,
        };
        if tool_due {
            self.last_tool_success_ts = hook.tool_success_ts;
            push_event(out, OverlayEvent::ToolSuccessToast { message: "执行成功！".to_string() });
        }
        let file_due = match hook.file_edit_success_ts {
            Some(ts) => match self.last_file_edit_ts {
                Some(last) => last != ts,
                None => true,
            },
            None => false,
        };
        if file_due {
            self.last_file_edit_ts = hook.file_edit_success_ts;
            push_event(out, OverlayEvent::FileEditToast { message: "文件完成编辑！".to_string() });
        }
        let typing_new = pulse.ts > 0 && match self.last_user_typing_ts {
            Some(last) => last != pulse.ts,
            None => true,
        } && text_eq(pulse.kind.as_str(), "user_typing");
        if typing_new {
            self.last_user_typing_ts = Some(pulse.ts);
            push_event(out, OverlayEvent::UserTypingToast { message: "哒哒哒".to_string() });
        }
        assert(events_view(out@) =~= start + toast_events(o, *hook, *pulse));
    }

    fn push_celebrations(
        &mut self,
        hook: &HookState,
        mood: PetMood,
        prev: PetMood,
        epoch_now: u64,
        out: &mut Vec<OverlayEvent>,
    )
        ensures
            events_view(final(out)@) == events_view(old(out)@) + celebration_events(
                old(self)@.last_celebrated_terminal_hook_ts,
                *hook,
                mood,
                prev,
                epoch_now,
            ),
            final(self)@ == (OverlayModel {
                last_celebrated_terminal_hook_ts: celebrated_after(
                    old(self)@.last_celebrated_terminal_hook_ts,
                    *hook,
                    mood,
                    prev,
                ),
                ..old(self)@
            }),
    {
        let ghost start = events_view(out@);
        let ghost last = self@.last_celebrated_terminal_hook_ts;
        let task_ms = task_duration_from_hook(hook, epoch_now);
        let success_due = mood == PetMood::Success && prev != PetMood::Success
            && self.should_emit_terminal_celebration(hook.ts);
        if success_due {
            let tier = tier_for_success(task_ms);
            push_event(out, OverlayEvent::Celebration { tier, task_duration_ms: task_ms, is_error: false });
            self.mark_terminal_celebrated(hook.ts);
        }
        let error_due = mood == PetMood::Error && prev != PetMood::Error
            && self.should_emit_terminal_celebration(hook.ts);
        if error_due {
            let tier = tier_for_error(task_ms);
            push_event(out, OverlayEvent::Celebration { tier, task_duration_ms: task_ms, is_error: true });
            self.mark_terminal_celebrated(hook.ts);
        }
        assert(events_view(out@) =~= start + celebration_events(last, *hook, mood, prev, epoch_now));
    }

    fn push_status(&mut self, now: u64, out: &mut Vec<OverlayEvent>)
        ensures
            events_view(final(out)@) == events_view(old(out)@) + status_events(old(self)@, now),
            final(self)@ == (OverlayModel {
                last_reported_can_feed: can_feed_at(old(self)@.feed_ready_at, now),
                last_reported_walk: old(self)@.walk_phase,
                ..old(self)@
            }),
    {
        let ghost o = self@;
        let ghost start = events_view(out@);
        let can_feed = Self::can_feed_now(self.feed_ready_at, now);
        if can_feed != self.last_reported_can_feed {
            self.last_reported_can_feed = can_feed;
            push_event(out, OverlayEvent::FeedAvailabilityChanged { can_feed });
        }
        if self.walk_phase != self.last_reported_walk {
            self.last_reported_walk = self.walk_phase;
            push_event(out, OverlayEvent::WalkPhaseChanged { phase: self.walk_phase });
        }
        assert(events_view(out@) =~= start + status_events(o, now));
    }

    /// One overlay tick at epoch time `epoch_now` (for task durations) and
    /// monotonic time `now` (for the feeding cooldown).
    pub fn tick_at(&mut self, input: OverlayTickIn<'_>, epoch_now: u64, now: u64) -> (out: Vec<OverlayEvent>)
        ensures
            final(self)@ == overlay_next(old(self)@, *input.hook, input.mood, input.prev_mood, *input.pulse, now),
            events_view(out@) == overlay_events(
                old(self)@,
                *input.hook,
                input.mood,
                input.prev_mood,
                *input.pulse,
                epoch_now,
                now,
            ),
    {
        let ghost o = self@;
        let mut out: Vec<OverlayEvent> = Vec::new();
        assert(events_view(out@) =~= seq![]);
        self.push_toasts(input.hook, input.pulse, &mut out);
        self.push_celebrations(input.hook, input.mood, input.prev_mood, epoch_now, &mut out);
        self.push_status(now, &mut out);
        assert(events_view(out@) =~= overlay_events(
            o,
            *input.hook,
            input.mood,
            input.prev_mood,
            *input.pulse,
            epoch_now,
            now,
        ));
        out
    }

    /// One overlay tick by the clocks.
    pub fn tick(&mut self, input: OverlayTickIn<'_>) -> (out: Vec<OverlayEvent>)
        ensures
            exists|epoch: u64, now: u64|
                #![trigger overlay_events(old(self)@, *input.hook, input.mood, input.prev_mood, *input.pulse, epoch, now)]
                {
                    &&& final(self)@ == overlay_next(
                        old(self)@,
                        *input.hook,
                        input.mood,
                        input.prev_mood,
                        *input.pulse,
                        now,
                    )
                    &&& events_view(out@) == overlay_events(
                        old(self)@,
                        *input.hook,
                        input.mood,
                        input.prev_mood,
                        *input.pulse,
                        epoch,
                        now,
                    )
                },
    {
        let ghost hook = *input.hook;
        let ghost pulse = *input.pulse;
        let ghost mood = input.mood;
        let ghost prev = input.prev_mood;
        let epoch = now_epoch_ms();
        let now = millis_since(&self.clock);
        let out = self.tick_at(input, epoch, now);
        assert(events_view(out@) == overlay_events(old(self)@, hook, mood, prev, pulse, epoch, now));
        out
    }
}

/// A toast fires once per timestamp: after a tick, the same tool-success and
/// file-edit timestamps are no longer due.
pub proof fn law_toast_once_per_timestamp(
    o: OverlayModel,
    h: HookState,
    mood: PetMood,
    prev: PetMood,
    pulse: NativePulse,
    mono: u64,
)
    ensures
        !toast_due(overlay_next(o, h, mood, prev, pulse, mono).last_tool_success_ts, h.tool_success_ts),
        !toast_due(overlay_next(o, h, mood, prev, pulse, mono).last_file_edit_ts, h.file_edit_success_ts),
        !typing_due(overlay_next(o, h, mood, prev, pulse, mono).last_user_typing_ts, pulse),
{
}

/// A terminal hook write is celebrated at most once: after a tick that
/// celebrated the write `h.ts`, no later tick reading the same write celebrates
/// again, whatever the moods.
pub proof fn law_celebrate_once_per_write(
    o: OverlayModel,
    h: HookState,
    mood: PetMood,
    prev: PetMood,
    pulse: NativePulse,
    epoch: u64,
    mono: u64,
    h2: HookState,
    mood2: PetMood,
    prev2: PetMood,
    epoch2: u64,
)
    requires
        h.ts > 0,
        h2.ts == h.ts,
        celebration_events(o.last_celebrated_terminal_hook_ts, h, mood, prev, epoch).len() > 0,
    ensures
        celebration_events(
            overlay_next(o, h, mood, prev, pulse, mono).last_celebrated_terminal_hook_ts,
            h2,
            mood2,
            prev2,
            epoch2,
        ) == Seq::<OverlayEventView>::empty(),
{
    assert(celebration_events(
        overlay_next(o, h, mood, prev, pulse, mono).last_celebrated_terminal_hook_ts,
        h2,
        mood2,
        prev2,
        epoch2,
    ) =~= Seq::<OverlayEventView>::empty());
}

/// Longer tasks never get a weaker celebration, for successes and failures alike.
pub proof fn law_tiers_grow_with_duration(ms1: u64, ms2: u64)
    requires
        ms1 <= ms2,
    ensures
        success_tier(ms1).rank() <= success_tier(ms2).rank(),
        error_tier(ms1).rank() <= error_tier(ms2).rank(),
{
}

/// Without a recorded task start the duration counts as 0: a success falls in
/// the lightest tier, a failure in the `s` tier.
pub proof fn law_unknown_start_is_lightest(h: HookState, epoch: u64)
    requires
        h.task_started_at_ms is None,
    ensures
        task_duration(h, epoch) == 0,
        success_tier(task_duration(h, epoch)) == CelebrationTier::XS,
        error_tier(task_duration(h, epoch)) == CelebrationTier::S,
{
}

/// After a feeding at `now`, feeding is refused until `FEED_COOLDOWN_MS` later
/// and allowed from then on.
pub proof fn law_feed_cooldown(o: OverlayModel, now: u64, later: u64)
    requires
        now + FEED_COOLDOWN_MS <= u64::MAX,
    ensures
        can_feed_at(after_feeding(o, now).feed_ready_at, later) <==> later >= now
            + FEED_COOLDOWN_MS,
{
}

/// What one overlay tick reads, with both clock readings.
pub struct TickReading {
    pub hook: HookState,
    pub mood: PetMood,
    pub prev: PetMood,
    pub pulse: NativePulse,
    pub epoch: u64,
    pub mono: u64,
}

/// The overlay after ticking through `ticks` in order.
pub open spec fn overlay_run(o: OverlayModel, ticks: Seq<TickReading>) -> OverlayModel
    decreases ticks.len(),
{
    if ticks.len() == 0 {
        o
    } else {
        let k = ticks.last();
        overlay_next(overlay_run(o, ticks.drop_last()), k.hook, k.mood, k.prev, k.pulse, k.mono)
    }
}

/// The `can_feed` values of the `FeedAvailabilityChanged` events among `evs`,
/// in order.
pub open spec fn feed_changes(evs: Seq<OverlayEventView>) -> Seq<bool>
    decreases evs.len(),
{
    if evs.len() == 0 {
        Seq::empty()
    } else {
        let rest = feed_changes(evs.drop_last());
        match evs.last() {
            OverlayEventView::FeedAvailabilityChanged { can_feed } => rest.push(can_feed),
            _ => rest,
        }
    }
}

/// The `can_feed` values of all `FeedAvailabilityChanged` events emitted while
/// ticking through `ticks`, in order.
pub open spec fn run_feed_changes(o: OverlayModel, ticks: Seq<TickReading>) -> Seq<bool>
    decreases ticks.len(),
{
    if ticks.len() == 0 {
        Seq::empty()
    } else {
        let k = ticks.last();
        let init = ticks.drop_last();
        run_feed_changes(o, init) + feed_changes(
            overlay_events(overlay_run(o, init), k.hook, k.mood, k.prev, k.pulse, k.epoch, k.mono),
        )
    }
}

/// The monotonic readings of `ticks` never go back.
pub open spec fn mono_sorted(ticks: Seq<TickReading>) -> bool {
    forall|i: int, j: int| 0 <= i <= j < ticks.len() ==> #[trigger] ticks[i].mono <= #[trigger] ticks[j].mono
}

/// Some tick of `ticks` reads `ready` or later.
pub open spec fn reaches(ticks: Seq<TickReading>, ready: u64) -> bool {
    exists|i: int| 0 <= i < ticks.len() && #[trigger] ticks[i].mono >= ready
}

proof fn lemma_feed_changes_add(a: Seq<OverlayEventView>, b: Seq<OverlayEventView>)
    ensures
        feed_changes(a + b) == feed_changes(a) + feed_changes(b),
    decreases b.len(),
{
    if b.len() == 0 {
        assert(a + b =~= a);
        assert(feed_changes(a) + feed_changes(b) =~= feed_changes(a));
    } else {
        lemma_feed_changes_add(a, b.drop_last());
        assert((a + b).drop_last() =~= a + b.drop_last());
        assert((a + b).last() == b.last());
        match b.last() {
            OverlayEventView::FeedAvailabilityChanged { can_feed } => {
                assert(feed_changes(a) + feed_changes(b) =~= (feed_changes(a) + feed_changes(
                    b.drop_last(),
                )).push(can_feed));
            },
            _ => {},
        }
    }
}

proof fn lemma_one_if_no_feed(b: bool, e: OverlayEventView)
    requires
        !(e is FeedAvailabilityChanged),
    ensures
        feed_changes(one_if(b, e)) == Seq::<bool>::empty(),
{
    if b {
        let one = seq![e];
        assert(one.drop_last() =~= Seq::<OverlayEventView>::empty());
        assert(one.last() == e);
        assert(feed_changes(one.drop_last()) =~= Seq::<bool>::empty());
        match e {
            OverlayEventView::FeedAvailabilityChanged { .. } => {},
            _ => {},
        }
    } else {
        assert(one_if(b, e) =~= Seq::<OverlayEventView>::empty());
    }
}

/// The feed changes of one tick: only the status events report feeding.
proof fn lemma_tick_feed_changes(
    o: OverlayModel,
    hook: HookState,
    mood: PetMood,
    prev: PetMood,
    pulse: NativePulse,
    epoch: u64,
    mono: u64,
)
    ensures
        feed_changes(overlay_events(o, hook, mood, prev, pulse, epoch, mono)) == (if can_feed_at(
            o.feed_ready_at,
            mono,
        ) != o.last_reported_can_feed {
            seq![can_feed_at(o.feed_ready_at, mono)]
        } else {
            Seq::<bool>::empty()
        }),
{
    let t1 = one_if(
        toast_due(o.last_tool_success_ts, hook.tool_success_ts),
        OverlayEventView::ToolSuccessToast { message: "执行成功！"@ },
    );
    let t2 = one_if(
        toast_due(o.last_file_edit_ts, hook.file_edit_success_ts),
        OverlayEventView::FileEditToast { message: "文件完成编辑！"@ },
    );
    let t3 = one_if(
        typing_due(o.last_user_typing_ts, pulse),
        OverlayEventView::UserTypingToast { message: "哒哒哒"@ },
    );
    lemma_one_if_no_feed(toast_due(o.last_tool_success_ts, hook.tool_success_ts), OverlayEventView::ToolSuccessToast { message: "执行成功！"@ });
    lemma_one_if_no_feed(toast_due(o.last_file_edit_ts, hook.file_edit_success_ts), OverlayEventView::FileEditToast { message: "文件完成编辑！"@ });
    lemma_one_if_no_feed(typing_due(o.last_user_typing_ts, pulse), OverlayEventView::UserTypingToast { message: "哒哒哒"@ });
    lemma_feed_changes_add(t1, t2);
    lemma_feed_changes_add(t1 + t2, t3);
    let task_ms = task_duration(hook, epoch);
    let (success, error) = celebrations_due(o.last_celebrated_terminal_hook_ts, hook, mood, prev);
    let c1 = one_if(
        success,
        OverlayEventView::Celebration {
            tier: success_tier(task_ms),
            task_duration_ms: task_ms,
            is_error: false,
        },
    );
    let c2 = one_if(
        error,
        OverlayEventView::Celebration {
            tier: error_tier(task_ms),
            task_duration_ms: task_ms,
            is_error: true,
        },
    );
    lemma_one_if_no_feed(success, OverlayEventView::Celebration { tier: success_tier(task_ms), task_duration_ms: task_ms, is_error: false });
    lemma_one_if_no_feed(error, OverlayEventView::Celebration { tier: error_tier(task_ms), task_duration_ms: task_ms, is_error: true });
    lemma_feed_changes_add(c1, c2);
    let can_feed = can_feed_at(o.feed_ready_at, mono);
    let f = one_if(
        can_feed != o.last_reported_can_feed,
        OverlayEventView::FeedAvailabilityChanged { can_feed },
    );
    let w = one_if(
        o.walk_phase != o.last_reported_walk,
        OverlayEventView::WalkPhaseChanged { phase: o.walk_phase },
    );
    lemma_one_if_no_feed(o.walk_phase != o.last_reported_walk, OverlayEventView::WalkPhaseChanged { phase: o.walk_phase });
    lemma_feed_changes_add(f, w);
    if can_feed != o.last_reported_can_feed {
        assert(seq![OverlayEventView::FeedAvailabilityChanged { can_feed }].drop_last()
            =~= Seq::<OverlayEventView>::empty());
        assert(feed_changes(f) =~= seq![can_feed]);
    }
    let toasts = toast_events(o, hook, pulse);
    let cels = celebration_events(o.last_celebrated_terminal_hook_ts, hook, mood, prev, epoch);
    let status = status_events(o, mono);
    lemma_feed_changes_add(toasts, cels);
    lemma_feed_changes_add(toasts + cels, status);
    assert(feed_changes(toasts) =~= Seq::<bool>::empty());
    assert(feed_changes(cels) =~= Seq::<bool>::empty());
    assert(feed_changes(status) =~= feed_changes(f));
}

/// Ticks leave the feeding cooldown as it is, and the last reported
/// availability is what the last tick saw.
proof fn lemma_run_feed_state(o: OverlayModel, ticks: Seq<TickReading>)
    ensures
        overlay_run(o, ticks).feed_ready_at == o.feed_ready_at,
        ticks.len() > 0 ==> overlay_run(o, ticks).last_reported_can_feed == can_feed_at(
            o.feed_ready_at,
            ticks.last().mono,
        ),
        ticks.len() == 0 ==> overlay_run(o, ticks) == o,
    decreases ticks.len(),
{
    if ticks.len() > 0 {
        lemma_run_feed_state(o, ticks.drop_last());
    }
}

/// Ticks never change when feeding is possible: after a feeding at `t0` and
/// any ticks, feeding at `t` is allowed exactly when `t` is at least
/// `FEED_COOLDOWN_MS` past `t0`.
pub proof fn law_feed_refused_until_cooldown_ends(
    o: OverlayModel,
    t0: u64,
    ticks: Seq<TickReading>,
    t: u64,
)
    requires
        t0 + FEED_COOLDOWN_MS <= u64::MAX,
    ensures
        overlay_run(after_feeding(o, t0), ticks).feed_ready_at == after_feeding(o, t0).feed_ready_at,
        can_feed_at(overlay_run(after_feeding(o, t0), ticks).feed_ready_at, t) <==> t >= t0
            + FEED_COOLDOWN_MS,
{
    lemma_run_feed_state(after_feeding(o, t0), ticks);
}

/// A new overlay honours a feeding persisted `E` ms before it started (its
/// clock reads 0 at the start): after any ticks, feeding at monotonic time `t`
/// is allowed exactly when no feeding was persisted or `t + E` reaches
/// `FEED_COOLDOWN_MS`.
pub proof fn law_persisted_feed_cooldown(
    p: OverlayPersist,
    pulse: NativePulse,
    epoch: u64,
    ticks: Seq<TickReading>,
    t: u64,
)
    ensures
        can_feed_at(overlay_run(overlay_start(p, pulse, epoch), ticks).feed_ready_at, t) <==> (
        p.last_feed_at_ms == 0 || t + elapsed(epoch, p.last_feed_at_ms) >= FEED_COOLDOWN_MS),
{
    lemma_run_feed_state(overlay_start(p, pulse, epoch), ticks);
}

/// After a feeding at `t0`, ticks whose monotonic readings never go back
/// report feeding available exactly once, and only if one of them reads
/// `t0 + FEED_COOLDOWN_MS` or later; they never report it unavailable.
pub proof fn law_feed_available_reported_once(o: OverlayModel, t0: u64, ticks: Seq<TickReading>)
    requires
        t0 + FEED_COOLDOWN_MS <= u64::MAX,
        mono_sorted(ticks),
    ensures
        run_feed_changes(after_feeding(o, t0), ticks) == (if reaches(
            ticks,
            (t0 + FEED_COOLDOWN_MS) as u64,
        ) {
            seq![true]
        } else {
            Seq::<bool>::empty()
        }),
    decreases ticks.len(),
{
    let ready = (t0 + FEED_COOLDOWN_MS) as u64;
    let start = after_feeding(o, t0);
    if ticks.len() > 0 {
        let init = ticks.drop_last();
        let k = ticks.last();
        assert(mono_sorted(init)) by {
            assert forall|i: int, j: int| 0 <= i <= j < init.len() implies #[trigger] init[i].mono
                <= #[trigger] init[j].mono by {
                assert(init[i] == ticks[i]);
                assert(init[j] == ticks[j]);
            }
        }
        law_feed_available_reported_once(o, t0, init);
        lemma_run_feed_state(start, init);
        let s = overlay_run(start, init);
        lemma_tick_feed_changes(s, k.hook, k.mood, k.prev, k.pulse, k.epoch, k.mono);
        if reaches(init, ready) {
            let i = choose|i: int| 0 <= i < init.len() && #[trigger] init[i].mono >= ready;
            assert(init[i] == ticks[i]);
            assert(ticks[i].mono <= ticks[ticks.len() - 1].mono);
            assert(reaches(ticks, ready));
            assert(s.last_reported_can_feed == can_feed_at(start.feed_ready_at, init.last().mono));
            assert(init.last() == ticks[init.len() - 1]);
            assert(ticks[i].mono <= ticks[init.len() - 1].mono);
            assert(run_feed_changes(start, ticks) =~= seq![true]);
        } else {
            if init.len() > 0 {
                assert(init[init.len() - 1].mono < ready);
                assert(!s.last_reported_can_feed);
            } else {
                assert(!s.last_reported_can_feed);
            }
            if k.mono >= ready {
                assert(ticks[ticks.len() - 1].mono >= ready);
                assert(reaches(ticks, ready));
                assert(run_feed_changes(start, ticks) =~= seq![true]);
            } else {
                assert forall|i: int| 0 <= i < ticks.len() implies !(#[trigger] ticks[i].mono >= ready) by {
                    if i < init.len() {
                        assert(init[i] == ticks[i]);
                    }
                }
                assert(run_feed_changes(start, ticks) =~= Seq::<bool>::empty());
            }
        }
    }
}

/// The terminal write last recorded after a series of marks, starting from none.
pub open spec fn marks_after(marks: Seq<u64>) -> Option<u64>
    decreases marks.len(),
{
    if marks.len() == 0 {
        None
    } else {
        mark_celebrated(marks_after(marks.drop_last()), marks.last())
    }
}

/// The last nonzero value of `marks`, if any.
pub open spec fn last_nonzero(marks: Seq<u64>) -> Option<u64>
    decreases marks.len(),
{
    if marks.len() == 0 {
        None
    } else if marks.last() > 0 {
        Some(marks.last())
    } else {
        last_nonzero(marks.drop_last())
    }
}

/// Marks without a time are ignored: after any series of marks, a terminal
/// write is celebrated exactly when it has no time or is not the last write
/// marked with a time.
pub proof fn law_celebration_filter(marks: Seq<u64>, ts: u64)
    ensures
        marks_after(marks) == last_nonzero(marks),
        should_celebrate(marks_after(marks), ts) == (ts == 0 || last_nonzero(marks) != Some(ts)),
    decreases marks.len(),
{
    if marks.len() > 0 {
        law_celebration_filter(marks.drop_last(), ts);
    }
}

} // verus!
