//! The mood of the pet (`PetMood`), decided from the hook snapshot alone.
//! Celebrations, feeding and walking live in `pet_overlay`.
use vstd::prelude::*;

use crate::clock::{elapsed, instant_now, millis_since, now_epoch_ms, sat_add};
use crate::hook_state::{age_at, fresh_at, HookState, InFlightTool};
use crate::text::text_eq;

verus! {

/// The pet's standing mood; only `PetBrain` sets it.
#[derive(Debug, Clone, Copy, PartialEq, Eq, Structural)]
pub enum PetMood {
    Idle,
    AgentThinking,
    AgentWriting,
    AgentRunning,
    AgentSearching,
    AgentWebSearch,
    Error,
    Success,
    Sleeping,
}

impl PetMood {
    /// The moods in which the agent is at work.
    pub open spec fn busy(self) -> bool {
        ||| self == PetMood::AgentThinking
        ||| self == PetMood::AgentWriting
        ||| self == PetMood::AgentRunning
        ||| self == PetMood::AgentSearching
        ||| self == PetMood::AgentWebSearch
    }

    /// The caption shown under the pet for this mood.
    pub open spec fn label_spec(self) -> Seq<char> {
        match self {
            PetMood::Idle => "idle"@,
            PetMood::AgentThinking => "thinking..."@,
            PetMood::AgentWriting => "writing!"@,
            PetMood::AgentRunning => "running..."@,
            PetMood::AgentSearching => "searching"@,
            PetMood::AgentWebSearch => "web search"@,
            PetMood::Error => "error!"@,
            PetMood::Success => "nice!"@,
            PetMood::Sleeping => "zzZ"@,
        }
    }

    pub fn label(&self) -> (r: &'static str)
        ensures
            r@ == self.label_spec(),
    {
        match self {
            PetMood::Idle => "idle",
            PetMood::AgentThinking => "thinking...",
            PetMood::AgentWriting => "writing!",
            PetMood::AgentRunning => "running...",
            PetMood::AgentSearching => "searching",
            PetMood::AgentWebSearch => "web search",
            PetMood::Error => "error!",
            PetMood::Success => "nice!",
            PetMood::Sleeping => "zzZ",
        }
    }

    /// Whether the agent is at work in this mood (the overlay times work
    /// sessions by the same test).
    pub fn is_ai_busy(self) -> (r: bool)
        ensures
            r == self.busy(),
    {
        match self {
            PetMood::AgentThinking | PetMood::AgentWriting | PetMood::AgentRunning
            | PetMood::AgentSearching | PetMood::AgentWebSearch => true,
            _ => false,
        }
    }
}

/// The CSS class of the pet element for each mood.
pub open spec fn mood_class_spec(mood: PetMood) -> Seq<char> {
    match mood {
        PetMood::Idle => "idle"@,
        PetMood::AgentThinking => "thinking"@,
        PetMood::AgentWriting => "writing"@,
        PetMood::AgentRunning => "running"@,
        PetMood::AgentSearching => "searching"@,
        PetMood::AgentWebSearch => "web-search"@,
        PetMood::Error => "error"@,
        PetMood::Success => "success"@,
        PetMood::Sleeping => "sleeping"@,
    }
}

pub fn mood_css_class(mood: PetMood) -> (r: &'static str)
    ensures
        r@ == mood_class_spec(mood),
{
    match mood {
        PetMood::Idle => "idle",
        PetMood::AgentThinking => "thinking",
        PetMood::AgentWriting => "writing",
        PetMood::AgentRunning => "running",
        PetMood::AgentSearching => "searching",
        PetMood::AgentWebSearch => "web-search",
        PetMood::Error => "error",
        PetMood::Success => "success",
        PetMood::Sleeping => "sleeping",
    }
}

/// The `activity` strings that the hook writes, as the brain tells them apart.
#[derive(Debug, Clone, Copy, PartialEq, Eq, Structural)]
pub enum Activity {
    Idle,
    Success,
    Error,
    Running,
    Writing,
    WebSearch,
    Searching,
    Thinking,
    /// Any other string: counts as activity, but names no mood.
    Other,
}

pub open spec fn activity_of(s: Seq<char>) -> Activity {
    if s == "idle"@ {
        Activity::Idle
    } else if s == "agent_success"@ {
        Activity::Success
    } else if s == "agent_error"@ {
        Activity::Error
    } else if s == "agent_running"@ {
        Activity::Running
    } else if s == "agent_writing"@ {
        Activity::Writing
    } else if s == "agent_web_search"@ {
        Activity::WebSearch
    } else if s == "agent_searching"@ {
        Activity::Searching
    } else if s == "agent_thinking"@ {
        Activity::Thinking
    } else {
        Activity::Other
    }
}

pub fn classify_activity(s: &str) -> (r: Activity)
    ensures
        r == activity_of(s@),
{
    if text_eq(s, "idle") {
        Activity::Idle
    } else if text_eq(s, "agent_success") {
        Activity::Success
    } else if text_eq(s, "agent_error") {
        Activity::Error
    } else if text_eq(s, "agent_running") {
        Activity::Running
    } else if text_eq(s, "agent_writing") {
        Activity::Writing
    } else if text_eq(s, "agent_web_search") {
        Activity::WebSearch
    } else if text_eq(s, "agent_searching") {
        Activity::Searching
    } else if text_eq(s, "agent_thinking") {
        Activity::Thinking
    } else {
        Activity::Other
    }
}

/// While a session is active, gaps between tools younger than this (ms) still
/// show Thinking.
pub const THINKING_BUFFER_MS: u64 = 3_000;

/// How long (ms) Success is held after `agent_success`.
pub const SUCCESS_HOLD_MS: u64 = 3_000;

/// Whole seconds without activity after which an idle pet falls asleep.
pub const SLEEP_AFTER_SECS: u64 = 300;

/// The priority of a tool cluster when tools run at once: running, then
/// writing, then web search, then local search, then thinking; 0 for none.
pub open spec fn activity_rank(a: Activity) -> nat {
    match a {
        Activity::Running => 5,
        Activity::Writing => 4,
        Activity::WebSearch => 3,
        Activity::Searching => 2,
        Activity::Thinking => 1,
        _ => 0,
    }
}

pub open spec fn rank_mood(r: nat) -> PetMood {
    if r == 5 {
        PetMood::AgentRunning
    } else if r == 4 {
        PetMood::AgentWriting
    } else if r == 3 {
        PetMood::AgentWebSearch
    } else if r == 2 {
        PetMood::AgentSearching
    } else {
        PetMood::AgentThinking
    }
}

/// The highest cluster priority among tools in flight.
pub open spec fn max_rank(tools: Seq<InFlightTool>) -> nat
    decreases tools.len(),
{
    if tools.len() == 0 {
        0
    } else {
        let r = max_rank(tools.drop_last());
        let c = activity_rank(activity_of(tools.last().cluster@));
        if c > r {
            c
        } else {
            r
        }
    }
}

/// What the brain remembers between ticks; times are milliseconds on the
/// brain's own monotonic clock.
pub struct BrainModel {
    pub mood: PetMood,
    pub prev_mood: PetMood,
    pub has_hooks: bool,
    pub last_activity: u64,
    pub success_until: Option<u64>,
    /// The hook write (`ts`) whose `agent_success` opened the last Success window.
    pub success_hook_ts: Option<u64>,
    pub idle_enter_confirm: u8,
}

/// The activity the brain acts on: the snapshot's, where it is fresh, else idle.
pub open spec fn effective_activity(h: HookState, epoch: u64) -> Activity {
    if fresh_at(h.ts, epoch) {
        activity_of(h.activity@)
    } else {
        Activity::Idle
    }
}

/// Tools are in flight in a fresh snapshot.
pub open spec fn tools_flying(h: HookState, epoch: u64) -> bool {
    fresh_at(h.ts, epoch) && h.in_flight_tools@.len() > 0
}

/// Sub-agents run, by a fresh snapshot.
pub open spec fn subagents_running(h: HookState, epoch: u64) -> bool {
    fresh_at(h.ts, epoch) && h.subagent_depth > 0
}

/// The time of the last activity after a tick at `now`: a fresh snapshot
/// naming an activity, tools in flight, or sub-agents count.
pub open spec fn activity_after(m: BrainModel, h: HookState, now: u64, epoch: u64) -> u64 {
    if effective_activity(h, epoch) != Activity::Idle || tools_flying(h, epoch)
        || subagents_running(h, epoch) {
        now
    } else {
        m.last_activity
    }
}

/// `agent_success` opens a Success window where none is open and this hook
/// write has not opened one before.
pub open spec fn opens_success(m: BrainModel, h: HookState, epoch: u64) -> bool {
    effective_activity(h, epoch) == Activity::Success && m.success_until is None
        && m.success_hook_ts != Some(h.ts)
}

/// The end of the Success window after a tick at `now`: opened as
/// `opens_success` says, closed by `agent_error`, and closed once `now`
/// reaches it.
pub open spec fn success_after(m: BrainModel, h: HookState, now: u64, epoch: u64) -> Option<u64> {
    let opened = if opens_success(m, h, epoch) {
        Some(sat_add(now, SUCCESS_HOLD_MS))
    } else {
        m.success_until
    };
    let kept = if effective_activity(h, epoch) == Activity::Error {
        None
    } else {
        opened
    };
    match kept {
        Some(u) => if now >= u {
            None
        } else {
            Some(u)
        },
        None => None,
    }
}

/// The mood a snapshot with no agent activity calls for: Thinking in a session
/// gap or while sub-agents run in the session, Sleeping after five idle
/// minutes, else Idle.
pub open spec fn resting_mood(thinking: bool, idle_ms: u64) -> PetMood {
    if thinking {
        PetMood::AgentThinking
    } else if idle_ms / 1000 > SLEEP_AFTER_SECS {
        PetMood::Sleeping
    } else {
        PetMood::Idle
    }
}

/// The mood the snapshot calls for, by priority: an open Success window, an
/// error, the busiest tool in flight, the activity, then `resting_mood`.
pub open spec fn target_mood(
    success_open: bool,
    act: Activity,
    flying_rank: nat,
    thinking: bool,
    idle_ms: u64,
) -> PetMood {
    if success_open {
        PetMood::Success
    } else if act == Activity::Error {
        PetMood::Error
    } else if flying_rank > 0 {
        rank_mood(flying_rank)
    } else {
        match act {
            Activity::Running => PetMood::AgentRunning,
            Activity::Writing => PetMood::AgentWriting,
            Activity::WebSearch => PetMood::AgentWebSearch,
            Activity::Searching => PetMood::AgentSearching,
            Activity::Thinking => PetMood::AgentThinking,
            _ => resting_mood(thinking, idle_ms),
        }
    }
}

/// A busy mood yields to Idle only on the second tick in a row that calls for
/// Idle; returns the mood to take and the new confirmation count.
pub open spec fn debounced(cur: PetMood, confirm: u8, target: PetMood) -> (PetMood, u8) {
    if cur.busy() {
        if target == PetMood::Idle {
            let c: u8 = if confirm == u8::MAX {
                u8::MAX
            } else {
                (confirm + 1) as u8
            };
            (if c < 2 {
                cur
            } else {
                PetMood::Idle
            }, c)
        } else {
            (target, 0)
        }
    } else {
        (target, 0)
    }
}

/// The target mood for a tick at monotonic time `now` and epoch time `epoch`.
pub open spec fn tick_target(m: BrainModel, h: HookState, now: u64, epoch: u64) -> PetMood {
    let act = effective_activity(h, epoch);
    let la = activity_after(m, h, now, epoch);
    let su = success_after(m, h, now, epoch);
    let fresh = fresh_at(h.ts, epoch);
    let gap = fresh && h.session_active && age_at(h.ts, epoch) < THINKING_BUFFER_MS;
    let sub = subagents_running(h, epoch) && h.session_active;
    let rank = if tools_flying(h, epoch) {
        max_rank(h.in_flight_tools@)
    } else {
        0
    };
    target_mood(su is Some, act, rank, gap || sub, elapsed(now, la))
}

/// One tick of the brain.
pub open spec fn brain_step(m: BrainModel, h: HookState, now: u64, epoch: u64) -> BrainModel {
    let target = tick_target(m, h, now, epoch);
    let (next, confirm) = debounced(m.mood, m.idle_enter_confirm, target);
    BrainModel {
        mood: next,
        prev_mood: m.mood,
        has_hooks: fresh_at(h.ts, epoch),
        last_activity: activity_after(m, h, now, epoch),
        success_until: success_after(m, h, now, epoch),
        success_hook_ts: if opens_success(m, h, epoch) {
            Some(h.ts)
        } else {
            m.success_hook_ts
        },
        idle_enter_confirm: confirm,
    }
}

/// The busiest cluster among tools in flight (0 where none is known).
pub fn in_flight_rank(tools: &Vec<InFlightTool>) -> (r: u8)
    ensures
        r == max_rank(tools@),
        r <= 5,
{
    let mut best: u8 = 0;
    let mut i: usize = 0;
    while i < tools.len()
        invariant
            i <= tools@.len(),
            best == max_rank(tools@.take(i as int)),
            best <= 5,
        decreases tools@.len() - i,
    {
        let c: u8 = match classify_activity(tools[i].cluster.as_str()) {
            Activity::Running => 5,
            Activity::Writing => 4,
            Activity::WebSearch => 3,
            Activity::Searching => 2,
            Activity::Thinking => 1,
            _ => 0,
        };
        proof {
            assert(tools@.take(i + 1).drop_last() =~= tools@.take(i as int));
            assert(tools@.take(i + 1).last() == tools@[i as int]);
        }
        if c > best {
            best = c;
        }
        i = i + 1;
    }
    assert(tools@.take(tools@.len() as int) =~= tools@);
    best
}

/// Fuses hook snapshots into a single mood, tick by tick.
pub struct PetBrain {
    pub mood: PetMood,
    pub prev_mood: PetMood,
    pub has_hooks: bool,
    clock: std::time::Instant,
    last_activity: u64,
    success_until: Option<u64>,
    success_hook_ts: Option<u64>,
    /// Ticks in a row that called for Idle while a busy mood stood.
    idle_enter_confirm: u8,
}

impl View for PetBrain {
    type V = BrainModel;

    closed spec fn view(&self) -> BrainModel {
        BrainModel {
            mood: self.mood,
            prev_mood: self.prev_mood,
            has_hooks: self.has_hooks,
            last_activity: self.last_activity,
            success_until: self.success_until,
            success_hook_ts: self.success_hook_ts,
            idle_enter_confirm: self.idle_enter_confirm,
        }
    }
}

impl PetBrain {
    /// A brain at rest: Idle, no hooks seen, its clock starting now.
    pub fn new() -> (r: Self)
        ensures
            r@ == (BrainModel {
                mood: PetMood::Idle,
                prev_mood: PetMood::Idle,
                has_hooks: false,
                last_activity: 0,
                success_until: None,
                success_hook_ts: None,
                idle_enter_confirm: 0,
            }),
    {
        PetBrain {
            mood: PetMood::Idle,
            prev_mood: PetMood::Idle,
            has_hooks: false,
            clock: instant_now(),
            last_activity: 0,
            success_until: None,
            success_hook_ts: None,
            idle_enter_confirm: 0,
        }
    }

    /// The current mood (the `mood` field).
    pub fn mood(&self) -> (r: PetMood)
        ensures
            r == self@.mood,
    {
        self.mood
    }

    /// The mood before the last tick (the `prev_mood` field).
    pub fn prev_mood(&self) -> (r: PetMood)
        ensures
            r == self@.prev_mood,
    {
        self.prev_mood
    }

    /// Whether the last tick read a fresh snapshot (the `has_hooks` field).
    pub fn has_hooks(&self) -> (r: bool)
        ensures
            r == self@.has_hooks,
    {
        self.has_hooks
    }

    fn is_busy_mood(m: PetMood) -> (r: bool)
        ensures
            r == m.busy(),
    {
        m.is_ai_busy()
    }

    /// One tick at monotonic time `now` (ms on this brain's clock) and epoch
    /// time `epoch_now` (ms, by which the snapshot's age is measured).
    pub fn tick_at(&mut self, hook: &HookState, now: u64, epoch_now: u64)
        ensures
            final(self)@ == brain_step(old(self)@, *hook, now, epoch_now),
    {
        let ghost m = self@;
        self.prev_mood = self.mood;

        let hook_fresh = hook.is_fresh_at(epoch_now);
        self.has_hooks = hook_fresh;

        let act = if hook_fresh {
            classify_activity(hook.activity.as_str())
        } else {
            Activity::Idle
        };
        let session_active = hook_fresh && hook.session_active;
        let flying = hook_fresh && hook.in_flight_tools.len() > 0;
        let subagents = hook_fresh && hook.subagent_depth > 0;

        if act != Activity::Idle || flying || subagents {
            self.last_activity = now;
        }
        let opens = act == Activity::Success && self.success_until.is_none() && match self.success_hook_ts {
            Some(t) => t != hook.ts,
            None => true,
        };
        if opens {
            self.success_until = Some(now.saturating_add(SUCCESS_HOLD_MS));
            self.success_hook_ts = Some(hook.ts);
        }
        if act == Activity::Error {
            self.success_until = None;
        }
        match self.success_until {
            Some(until) => {
                if now >= until {
                    self.success_until = None;
                }
            },
            None => {},
        }
        assert(self.last_activity == activity_after(m, *hook, now, epoch_now));
        assert(self.success_until == success_after(m, *hook, now, epoch_now));

        let rank = if flying {
            in_flight_rank(&hook.in_flight_tools)
        } else {
            0
        };
        let idle_ms = now.saturating_sub(self.last_activity);
        let thinking = (session_active && hook.age_ms_at(epoch_now) < THINKING_BUFFER_MS) || (
        subagents && session_active);
        let target = if self.success_until.is_some() {
            PetMood::Success
        } else if act == Activity::Error {
            PetMood::Error
        } else if rank == 5 {
            PetMood::AgentRunning
        } else if rank == 4 {
            PetMood::AgentWriting
        } else if rank == 3 {
            PetMood::AgentWebSearch
        } else if rank == 2 {
            PetMood::AgentSearching
        } else if rank == 1 {
            PetMood::AgentThinking
        } else {
            match act {
                Activity::Running => PetMood::AgentRunning,
                Activity::Writing => PetMood::AgentWriting,
                Activity::WebSearch => PetMood::AgentWebSearch,
                Activity::Searching => PetMood::AgentSearching,
                Activity::Thinking => PetMood::AgentThinking,
                _ => {
                    if thinking {
                        PetMood::AgentThinking
                    } else if idle_ms / 1000 > SLEEP_AFTER_SECS {
                        PetMood::Sleeping
                    } else {
                        PetMood::Idle
                    }
                },
            }
        };
        assert(target == tick_target(m, *hook, now, epoch_now));

        if Self::is_busy_mood(self.mood) && target == PetMood::Idle {
            self.idle_enter_confirm = self.idle_enter_confirm.saturating_add(1);
            if self.idle_enter_confirm >= 2 {
                self.mood = PetMood::Idle;
            }
        } else {
            self.idle_enter_confirm = 0;
            self.mood = target;
        }
    }

    /// One tick by the clocks: the brain's monotonic clock and the system
    /// clock. The new state is one step of `brain_step` for some readings.
    pub fn tick(&mut self, hook: &HookState)
        ensures
            exists|now: u64, epoch: u64|
                #![trigger brain_step(old(self)@, *hook, now, epoch)]
                final(self)@ == brain_step(old(self)@, *hook, now, epoch),
    {
        let now = millis_since(&self.clock);
        let epoch = now_epoch_ms();
        self.tick_at(hook, now, epoch);
        assert(self@ == brain_step(old(self)@, *hook, now, epoch));
    }
}

/// Each mood has its own CSS class: the class names the mood.
pub proof fn law_mood_classes_distinct(a: PetMood, b: PetMood)
    requires
        a != b,
    ensures
        mood_class_spec(a) != mood_class_spec(b),
{
    reveal_strlit("idle");
    reveal_strlit("thinking");
    reveal_strlit("writing");
    reveal_strlit("running");
    reveal_strlit("searching");
    reveal_strlit("web-search");
    reveal_strlit("error");
    reveal_strlit("success");
    reveal_strlit("sleeping");
    let sa = mood_class_spec(a);
    let sb = mood_class_spec(b);
    if sa.len() == sb.len() && sa.len() > 0 {
        assert(sa[0] != sb[0]);
    }
}

/// A fresh `agent_success` from a hook write that has not opened a Success
/// window yet, with none open, shows Success at once and holds it until
/// `SUCCESS_HOLD_MS` later; the write is remembered.
pub proof fn law_success_follows_agent_success(m: BrainModel, h: HookState, now: u64, epoch: u64)
    requires
        fresh_at(h.ts, epoch),
        activity_of(h.activity@) == Activity::Success,
        m.success_until is None,
        m.success_hook_ts != Some(h.ts),
        now + SUCCESS_HOLD_MS <= u64::MAX,
    ensures
        brain_step(m, h, now, epoch).mood == PetMood::Success,
        brain_step(m, h, now, epoch).success_until == Some((now + SUCCESS_HOLD_MS) as u64),
        brain_step(m, h, now, epoch).success_hook_ts == Some(h.ts),
{
}

/// One hook write opens the Success window at most once: from the tick at
/// which the window it opened ends, the same write, read again outside a
/// session and with no tools in flight, leaves the pet Idle or Sleeping.
pub proof fn law_success_once_per_write(m: BrainModel, h: HookState, now: u64, epoch: u64)
    requires
        m.success_hook_ts == Some(h.ts),
        match m.success_until {
            Some(u) => now >= u,
            None => true,
        },
        activity_of(h.activity@) == Activity::Success,
        !m.mood.busy(),
        !h.session_active,
        h.in_flight_tools@.len() == 0,
    ensures
        brain_step(m, h, now, epoch).success_until is None,
        brain_step(m, h, now, epoch).mood == PetMood::Idle || brain_step(m, h, now, epoch).mood
            == PetMood::Sleeping,
{
}

/// While the Success window is open, and no error arrives, the pet shows
/// Success whatever else the snapshot says.
pub proof fn law_success_window_holds(m: BrainModel, h: HookState, now: u64, epoch: u64, until: u64)
    requires
        m.success_until == Some(until),
        now < until,
        effective_activity(h, epoch) != Activity::Error,
    ensures
        brain_step(m, h, now, epoch).mood == PetMood::Success,
{
}

/// A fresh `agent_error` shows Error at once and closes any Success window.
pub proof fn law_error_shows_at_once(m: BrainModel, h: HookState, now: u64, epoch: u64)
    requires
        fresh_at(h.ts, epoch),
        activity_of(h.activity@) == Activity::Error,
    ensures
        brain_step(m, h, now, epoch).mood == PetMood::Error,
        brain_step(m, h, now, epoch).success_until is None,
{
}

/// A stale snapshot counts as idle: what it holds besides its time makes no
/// difference to the brain.
pub proof fn law_stale_snapshots_alike(
    m: BrainModel,
    h1: HookState,
    h2: HookState,
    now: u64,
    epoch: u64,
)
    requires
        !fresh_at(h1.ts, epoch),
        !fresh_at(h2.ts, epoch),
    ensures
        brain_step(m, h1, now, epoch) == brain_step(m, h2, now, epoch),
        !brain_step(m, h1, now, epoch).has_hooks,
{
}

/// Five minutes (more than `SLEEP_AFTER_SECS` whole seconds) without activity
/// put a resting pet to sleep.
pub proof fn law_sleeps_after_five_idle_minutes(m: BrainModel, h: HookState, now: u64, epoch: u64)
    requires
        !fresh_at(h.ts, epoch),
        m.success_until is None,
        !m.mood.busy(),
        elapsed(now, m.last_activity) >= (SLEEP_AFTER_SECS + 1) * 1000,
    ensures
        brain_step(m, h, now, epoch).mood == PetMood::Sleeping,
{
}

/// A busy mood gives way to Idle only on the second tick in a row that calls
/// for Idle.
pub proof fn law_idle_needs_two_ticks(
    m: BrainModel,
    h1: HookState,
    now1: u64,
    epoch1: u64,
    h2: HookState,
    now2: u64,
    epoch2: u64,
)
    requires
        m.mood.busy(),
        m.idle_enter_confirm == 0,
        tick_target(m, h1, now1, epoch1) == PetMood::Idle,
        tick_target(brain_step(m, h1, now1, epoch1), h2, now2, epoch2) == PetMood::Idle,
    ensures
        brain_step(m, h1, now1, epoch1).mood == m.mood,
        brain_step(brain_step(m, h1, now1, epoch1), h2, now2, epoch2).mood == PetMood::Idle,
{
}

/// A switch to a busy mood, from any mood, takes effect at once.
pub proof fn law_busy_switch_immediate(m: BrainModel, h: HookState, now: u64, epoch: u64)
    requires
        tick_target(m, h, now, epoch).busy(),
    ensures
        brain_step(m, h, now, epoch).mood == tick_target(m, h, now, epoch),
{
}

/// The Success window closes once its end is reached.
pub proof fn law_success_window_closes(m: BrainModel, h: HookState, now: u64, epoch: u64, until: u64)
    requires
        m.success_until == Some(until),
        now >= until,
    ensures
        brain_step(m, h, now, epoch).success_until is None,
{
}

/// In an active session, a fresh snapshot younger than `THINKING_BUFFER_MS`
/// that names no agent activity calls for Thinking (the gap between tools).
pub proof fn law_session_gap_calls_for_thinking(m: BrainModel, h: HookState, now: u64, epoch: u64)
    requires
        fresh_at(h.ts, epoch),
        h.session_active,
        age_at(h.ts, epoch) < THINKING_BUFFER_MS,
        activity_of(h.activity@) == Activity::Idle || activity_of(h.activity@) == Activity::Other,
        m.success_until is None,
        h.in_flight_tools@.len() == 0,
    ensures
        tick_target(m, h, now, epoch) == PetMood::AgentThinking,
{
}

/// While sub-agents run in an active session, a fresh snapshot that names no
/// agent activity and no tools calls for Thinking, however old it is.
pub proof fn law_subagents_keep_thinking(m: BrainModel, h: HookState, now: u64, epoch: u64)
    requires
        fresh_at(h.ts, epoch),
        h.session_active,
        h.subagent_depth > 0,
        activity_of(h.activity@) == Activity::Idle || activity_of(h.activity@) == Activity::Other,
        m.success_until is None,
        h.in_flight_tools@.len() == 0,
    ensures
        tick_target(m, h, now, epoch) == PetMood::AgentThinking,
        activity_after(m, h, now, epoch) == now,
{
}

proof fn lemma_max_rank_bounds(tools: Seq<InFlightTool>)
    ensures
        max_rank(tools) <= 5,
        forall|i: int|
            0 <= i < tools.len() ==> activity_rank(activity_of(#[trigger] tools[i].cluster@))
                <= max_rank(tools),
        max_rank(tools) == 0 || exists|i: int|
            0 <= i < tools.len() && activity_rank(activity_of(#[trigger] tools[i].cluster@))
                == max_rank(tools),
    decreases tools.len(),
{
    if tools.len() > 0 {
        let init = tools.drop_last();
        lemma_max_rank_bounds(init);
        assert forall|i: int|
            0 <= i < tools.len() implies activity_rank(activity_of(#[trigger] tools[i].cluster@))
            <= max_rank(tools) by {
            if i < tools.len() - 1 {
                assert(tools[i] == init[i]);
            }
        }
        if max_rank(tools) != 0 {
            if max_rank(tools) == max_rank(init) {
                let j = choose|j: int|
                    0 <= j < init.len() && activity_rank(activity_of(#[trigger] init[j].cluster@))
                        == max_rank(init);
                assert(tools[j] == init[j]);
            } else {
                assert(activity_rank(activity_of(tools[tools.len() - 1].cluster@)) == max_rank(
                    tools,
                ));
            }
        }
    }
}

/// Tools in flight in a fresh snapshot set the mood (outside a Success window
/// and an error): the busiest of them, running before writing before web search
/// before local search before thinking.
pub proof fn law_busiest_tool_in_flight_wins(m: BrainModel, h: HookState, now: u64, epoch: u64)
    requires
        fresh_at(h.ts, epoch),
        success_after(m, h, now, epoch) is None,
        activity_of(h.activity@) != Activity::Error,
        max_rank(h.in_flight_tools@) > 0,
    ensures
        tick_target(m, h, now, epoch) == rank_mood(max_rank(h.in_flight_tools@)),
        forall|i: int|
            0 <= i < h.in_flight_tools@.len() ==> activity_rank(
                activity_of(#[trigger] h.in_flight_tools@[i].cluster@),
            ) <= max_rank(h.in_flight_tools@),
        exists|i: int|
            0 <= i < h.in_flight_tools@.len() && activity_rank(
                activity_of(#[trigger] h.in_flight_tools@[i].cluster@),
            ) == max_rank(h.in_flight_tools@),
{
    lemma_max_rank_bounds(h.in_flight_tools@);
}


/// The activity strings that the hook writes, as the brains read them.
pub proof fn lemma_activity_names()
    ensures
        activity_of("idle"@) == Activity::Idle,
        activity_of("agent_success"@) == Activity::Success,
        activity_of("agent_error"@) == Activity::Error,
        activity_of("agent_running"@) == Activity::Running,
        activity_of("agent_writing"@) == Activity::Writing,
        activity_of("agent_web_search"@) == Activity::WebSearch,
        activity_of("agent_searching"@) == Activity::Searching,
        activity_of("agent_thinking"@) == Activity::Thinking,
{
    reveal_strlit("idle");
    reveal_strlit("agent_success");
    reveal_strlit("agent_error");
    reveal_strlit("agent_running");
    reveal_strlit("agent_writing");
    reveal_strlit("agent_web_search");
    reveal_strlit("agent_searching");
    reveal_strlit("agent_thinking");
    assert("idle"@.len() == 4);
    assert("agent_success"@.len() == 13);
    assert("agent_error"@.len() == 11);
    assert("agent_running"@.len() == 13);
    assert("agent_writing"@.len() == 13);
    assert("agent_web_search"@.len() == 16);
    assert("agent_searching"@.len() == 15);
    assert("agent_thinking"@.len() == 14);
    assert("agent_success"@[6] != "agent_running"@[6]);
    assert("agent_success"@[6] != "agent_writing"@[6]);
    assert("agent_running"@[6] != "agent_writing"@[6]);
    assert("agent_web_search"@[6] != "agent_searching"@[6]);
}

/// A fresh snapshot naming an agent activity shows its mood at once:
/// `agent_thinking` Thinking, `agent_writing` Writing, `agent_running`
/// Running, `agent_searching` Searching and `agent_web_search` Web search, at
/// any age within the fresh window and in or out of a session, wherever no
/// Success window is open and no tool is in flight; `agent_error` shows Error
/// whatever is open or in flight. Each counts as activity.
pub proof fn law_fresh_activity_shows_its_mood(m: BrainModel, h: HookState, now: u64, epoch: u64)
    requires
        fresh_at(h.ts, epoch),
    ensures
        h.activity@ == "agent_error"@ ==> brain_step(m, h, now, epoch).mood == PetMood::Error,
        (m.success_until is None && h.in_flight_tools@.len() == 0) ==> {
            &&& h.activity@ == "agent_thinking"@ ==> brain_step(m, h, now, epoch).mood
                == PetMood::AgentThinking
            &&& h.activity@ == "agent_writing"@ ==> brain_step(m, h, now, epoch).mood
                == PetMood::AgentWriting
            &&& h.activity@ == "agent_running"@ ==> brain_step(m, h, now, epoch).mood
                == PetMood::AgentRunning
            &&& h.activity@ == "agent_searching"@ ==> brain_step(m, h, now, epoch).mood
                == PetMood::AgentSearching
            &&& h.activity@ == "agent_web_search"@ ==> brain_step(m, h, now, epoch).mood
                == PetMood::AgentWebSearch
        },
        h.activity@ != "idle"@ ==> brain_step(m, h, now, epoch).last_activity == now,
        brain_step(m, h, now, epoch).has_hooks,
{
    lemma_activity_names();
}

/// Some tool in flight stands for the cluster `c`.
pub open spec fn cluster_in_flight(tools: Seq<InFlightTool>, c: Seq<char>) -> bool {
    exists|i: int| 0 <= i < tools.len() && #[trigger] tools[i].cluster@ == c
}

/// Tools in flight in a fresh snapshot, outside a Success window and an
/// error, set the mood by their clusters: any `agent_running` tool shows
/// Running; else any `agent_writing` tool Writing; else any
/// `agent_web_search` tool Web search; else any `agent_searching` tool
/// Searching; else any `agent_thinking` tool Thinking.
pub proof fn law_tool_clusters_by_priority(m: BrainModel, h: HookState, now: u64, epoch: u64)
    requires
        fresh_at(h.ts, epoch),
        m.success_until is None,
        h.activity@ != "agent_error"@,
        h.activity@ != "agent_success"@,
    ensures
        ({
            let tools = h.in_flight_tools@;
            let mood = brain_step(m, h, now, epoch).mood;
            &&& cluster_in_flight(tools, "agent_running"@) ==> mood == PetMood::AgentRunning
            &&& (!cluster_in_flight(tools, "agent_running"@) && cluster_in_flight(tools, "agent_writing"@)) ==> mood == PetMood::AgentWriting
            &&& (!cluster_in_flight(tools, "agent_running"@) && !cluster_in_flight(tools, "agent_writing"@) && cluster_in_flight(tools, "agent_web_search"@))
                ==> mood == PetMood::AgentWebSearch
            &&& (!cluster_in_flight(tools, "agent_running"@) && !cluster_in_flight(tools, "agent_writing"@) && !cluster_in_flight(tools, "agent_web_search"@)
                && cluster_in_flight(tools, "agent_searching"@)) ==> mood == PetMood::AgentSearching
            &&& (!cluster_in_flight(tools, "agent_running"@) && !cluster_in_flight(tools, "agent_writing"@) && !cluster_in_flight(tools, "agent_web_search"@)
                && !cluster_in_flight(tools, "agent_searching"@) && cluster_in_flight(tools, "agent_thinking"@)) ==> mood
                == PetMood::AgentThinking
        }),
{
    lemma_activity_names();
    let tools = h.in_flight_tools@;
    lemma_max_rank_bounds(tools);
    assert(activity_of(h.activity@) != Activity::Error);
    assert(activity_of(h.activity@) != Activity::Success) by {
        if activity_of(h.activity@) == Activity::Success {
            reveal_strlit("agent_success");
            assert(h.activity@ =~= "agent_success"@);
        }
    }
    let r = max_rank(tools);
    // Each cluster literal has its rank; a rank names the cluster it came from.
    assert forall|i: int| 0 <= i < tools.len() implies {
        let c = #[trigger] tools[i].cluster@;
        &&& activity_rank(activity_of(c)) == 5 <==> c == "agent_running"@
        &&& activity_rank(activity_of(c)) == 4 <==> c == "agent_writing"@
        &&& activity_rank(activity_of(c)) == 3 <==> c == "agent_web_search"@
        &&& activity_rank(activity_of(c)) == 2 <==> c == "agent_searching"@
        &&& activity_rank(activity_of(c)) == 1 <==> c == "agent_thinking"@
    } by {}
    if r > 0 {
        let j = choose|j: int|
            0 <= j < tools.len() && activity_rank(activity_of(#[trigger] tools[j].cluster@)) == r;
        assert(tools[j].cluster@ == tools[j].cluster@);
    }
}

} // verus!
