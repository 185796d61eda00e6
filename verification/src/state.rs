//! The earlier nine-mood brain, which also reads native observations: file
//! system activity and whether Cursor is running.
use vstd::prelude::*;

use crate::clock::{elapsed, instant_now, millis_since, now_epoch_ms, sat_add};
use crate::hook_state::{age_at, fresh_at, HookState};
use crate::pet_core::{activity_of, classify_activity, lemma_activity_names, Activity};

verus! {

#[derive(Debug, Clone, Copy, PartialEq, Eq, Structural)]
pub enum PetMood {
    Idle,
    UserCoding,
    AgentThinking,
    AgentWriting,
    AgentRunning,
    AgentSearching,
    Error,
    Success,
    Sleeping,
}

impl PetMood {
    pub open spec fn label_spec(self) -> Seq<char> {
        match self {
            PetMood::Idle => "idle"@,
            PetMood::UserCoding => "coding"@,
            PetMood::AgentThinking => "thinking..."@,
            PetMood::AgentWriting => "writing!"@,
            PetMood::AgentRunning => "running..."@,
            PetMood::AgentSearching => "searching"@,
            PetMood::Error => "error!"@,
            PetMood::Success => "nice!"@,
            PetMood::Sleeping => "zzZ"@,
        }
    }

    pub fn label(&self) -> (r: &'static str)
        ensures
            r@ == self.label_spec(),
    {
        match self {
            PetMood::Idle => "idle",
            PetMood::UserCoding => "coding",
            PetMood::AgentThinking => "thinking...",
            PetMood::AgentWriting => "writing!",
            PetMood::AgentRunning => "running...",
            PetMood::AgentSearching => "searching",
            PetMood::Error => "error!",
            PetMood::Success => "nice!",
            PetMood::Sleeping => "zzZ",
        }
    }
}

/// While a session is active, a snapshot younger than this (ms) still shows
/// Thinking between tools.
pub const SESSION_THINKING_MS: u64 = 5_000;

/// How long (ms) Success is held after `agent_success`.
pub const SUCCESS_HOLD_MS: u64 = 3_000;

/// What this brain remembers between ticks (ms on its own monotonic clock).
pub struct LegacyBrainModel {
    pub mood: PetMood,
    pub prev_mood: PetMood,
    pub has_hooks: bool,
    pub last_activity: u64,
    pub success_until: Option<u64>,
    /// The hook write (`ts`) whose `agent_success` opened the last Success window.
    pub success_hook_ts: Option<u64>,
}

/// One tick of this brain at monotonic time `now` and epoch time `epoch`;
/// `fs_busy` says the file system saw more than one event per second.
pub open spec fn legacy_step(
    m: LegacyBrainModel,
    h: HookState,
    fs_busy: bool,
    cursor_running: bool,
    now: u64,
    epoch: u64,
) -> LegacyBrainModel {
    let fresh = fresh_at(h.ts, epoch);
    let act = if fresh {
        activity_of(h.activity@)
    } else {
        Activity::Idle
    };
    let session_active = fresh && h.session_active;
    let la = if act != Activity::Idle || fs_busy {
        now
    } else {
        m.last_activity
    };
    let opens = act == Activity::Success && m.success_until is None && m.success_hook_ts != Some(
        h.ts,
    );
    let opened = if opens {
        Some(sat_add(now, SUCCESS_HOLD_MS))
    } else {
        m.success_until
    };
    let kept = if act == Activity::Error {
        None
    } else {
        opened
    };
    let su = match kept {
        Some(u) => if now >= u {
            None
        } else {
            Some(u)
        },
        None => None,
    };
    let mood = if su is Some {
        PetMood::Success
    } else {
        match act {
            Activity::Error => PetMood::Error,
            Activity::Running => PetMood::AgentRunning,
            Activity::Writing => PetMood::AgentWriting,
            Activity::Searching => PetMood::AgentSearching,
            Activity::Thinking => PetMood::AgentThinking,
            _ => if session_active && age_at(h.ts, epoch) < SESSION_THINKING_MS {
                PetMood::AgentThinking
            } else if fs_busy && cursor_running {
                PetMood::UserCoding
            } else if elapsed(now, la) / 1000 > 300 {
                PetMood::Sleeping
            } else {
                PetMood::Idle
            },
        }
    };
    LegacyBrainModel {
        mood,
        prev_mood: m.mood,
        has_hooks: fresh,
        last_activity: la,
        success_until: su,
        success_hook_ts: if opens {
            Some(h.ts)
        } else {
            m.success_hook_ts
        },
    }
}

/// Fuses hook signals and native observations into a single mood.
pub struct PetBrain {
    pub mood: PetMood,
    pub prev_mood: PetMood,
    pub has_hooks: bool,
    clock: std::time::Instant,
    last_activity: u64,
    success_until: Option<u64>,
    success_hook_ts: Option<u64>,
}

impl View for PetBrain {
    type V = LegacyBrainModel;

    closed spec fn view(&self) -> LegacyBrainModel {
        LegacyBrainModel {
            mood: self.mood,
            prev_mood: self.prev_mood,
            has_hooks: self.has_hooks,
            last_activity: self.last_activity,
            success_until: self.success_until,
            success_hook_ts: self.success_hook_ts,
        }
    }
}

impl PetBrain {
    pub fn new() -> (r: Self)
        ensures
            r@ == (LegacyBrainModel {
                mood: PetMood::Idle,
                prev_mood: PetMood::Idle,
                has_hooks: false,
                last_activity: 0,
                success_until: None,
                success_hook_ts: None,
            }),
    {
        PetBrain {
            mood: PetMood::Idle,
            prev_mood: PetMood::Idle,
            has_hooks: false,
            clock: instant_now(),
            last_activity: 0,
            success_until: None,
            success_hook_ts: None,
        }
    }

    /// The current mood (the `mood` field).
    pub fn mood(&self) -> (r: PetMood)
        ensures
            r == self@.mood,
    {
        self.mood
    }

    /// The mood before the last tick (the `prev_mood` field).
    pub fn prev_mood(&self) -> (r: PetMood)
        ensures
            r == self@.prev_mood,
    {
        self.prev_mood
    }

    /// Whether the last tick read a fresh snapshot (the `has_hooks` field).
    pub fn has_hooks(&self) -> (r: bool)
        ensures
            r == self@.has_hooks,
    {
        self.has_hooks
    }

    /// One tick at monotonic time `now` and epoch time `epoch_now`.
    pub fn tick_at(
        &mut self,
        fs_busy: bool,
        cursor_running: bool,
        hook: &HookState,
        now: u64,
        epoch_now: u64,
    )
        ensures
            final(self)@ == legacy_step(old(self)@, *hook, fs_busy, cursor_running, now, epoch_now),
    {
        self.prev_mood = self.mood;
        let hook_fresh = hook.is_fresh_at(epoch_now);
        self.has_hooks = hook_fresh;
        let act = if hook_fresh {
            classify_activity(hook.activity.as_str())
        } else {
            Activity::Idle
        };
        let session_active = hook_fresh && hook.session_active;

        if act != Activity::Idle || fs_busy {
            self.last_activity = now;
        }
        let opens = act == Activity::Success && self.success_until.is_none() && match self.success_hook_ts {
            Some(t) => t != hook.ts,
            None => true,
        };
        if opens {
            self.success_until = Some(now.saturating_add(SUCCESS_HOLD_MS));
            self.success_hook_ts = Some(hook.ts);
        }
        if act == Activity::Error {
            self.success_until = None;
        }
        match self.success_until {
            Some(until) => {
                if now >= until {
                    self.success_until = None;
                }
            },
            None => {},
        }

        let secs_idle = now.saturating_sub(self.last_activity) / 1000;
        self.mood = if self.success_until.is_some() {
            PetMood::Success
        } else {
            match act {
                Activity::Error => PetMood::Error,
                Activity::Running => PetMood::AgentRunning,
                Activity::Writing => PetMood::AgentWriting,
                Activity::Searching => PetMood::AgentSearching,
                Activity::Thinking => PetMood::AgentThinking,
                _ => {
                    if session_active && hook.age_ms_at(epoch_now) < SESSION_THINKING_MS {
                        PetMood::AgentThinking
                    } else if fs_busy && cursor_running {
                        PetMood::UserCoding
                    } else if secs_idle > 300 {
                        PetMood::Sleeping
                    } else {
                        PetMood::Idle
                    }
                },
            }
        };
    }

    /// One tick by the clocks; `fs_busy` says the file system saw more than one
    /// event per second.
    pub fn tick(&mut self, fs_busy: bool, cursor_running: bool, hook: &HookState)
        ensures
            exists|now: u64, epoch: u64|
                #![trigger legacy_step(old(self)@, *hook, fs_busy, cursor_running, now, epoch)]
                final(self)@ == legacy_step(old(self)@, *hook, fs_busy, cursor_running, now, epoch),
    {
        let now = millis_since(&self.clock);
        let epoch = now_epoch_ms();
        self.tick_at(fs_busy, cursor_running, hook, now, epoch);
        assert(self@ == legacy_step(old(self)@, *hook, fs_busy, cursor_running, now, epoch));
    }
}

/// With no agent signal and no Success window, a busy file system while Cursor
/// runs shows the user coding.
pub proof fn law_user_coding(m: LegacyBrainModel, h: HookState, now: u64, epoch: u64)
    requires
        !fresh_at(h.ts, epoch),
        m.success_until is None,
    ensures
        legacy_step(m, h, true, true, now, epoch).mood == PetMood::UserCoding,
{
}

/// One hook write opens this brain's Success window at most once: once the
/// window it opened has closed, the same write leaves the window shut.
pub proof fn law_legacy_success_once_per_write(
    m: LegacyBrainModel,
    h: HookState,
    fs_busy: bool,
    cursor_running: bool,
    now: u64,
    epoch: u64,
)
    requires
        m.success_hook_ts == Some(h.ts),
        m.success_until is None,
    ensures
        legacy_step(m, h, fs_busy, cursor_running, now, epoch).success_until is None,
        legacy_step(m, h, fs_busy, cursor_running, now, epoch).mood != PetMood::Success,
{
}


/// A fresh snapshot naming an agent activity shows its mood in this brain
/// too, whatever the native signals say, wherever no Success window is open:
/// `agent_thinking` Thinking, `agent_writing` Writing, `agent_running`
/// Running, `agent_searching` Searching; `agent_error` shows Error always.
pub proof fn law_legacy_fresh_activity_shows_its_mood(
    m: LegacyBrainModel,
    h: HookState,
    fs_busy: bool,
    cursor_running: bool,
    now: u64,
    epoch: u64,
)
    requires
        fresh_at(h.ts, epoch),
    ensures
        ({
            let mood = legacy_step(m, h, fs_busy, cursor_running, now, epoch).mood;
            &&& h.activity@ == "agent_error"@ ==> mood == PetMood::Error
            &&& m.success_until is None ==> {
                &&& h.activity@ == "agent_thinking"@ ==> mood == PetMood::AgentThinking
                &&& h.activity@ == "agent_writing"@ ==> mood == PetMood::AgentWriting
                &&& h.activity@ == "agent_running"@ ==> mood == PetMood::AgentRunning
                &&& h.activity@ == "agent_searching"@ ==> mood == PetMood::AgentSearching
            }
        }),
{
    lemma_activity_names();
}
} // verus!
