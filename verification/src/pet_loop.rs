//! The decisions of the pet's frame loop: which snapshot to trust at boot,
//! when to sample the machine, when to push the mood to the page, and how text
//! is quoted for the page's script.
use vstd::prelude::*;

use crate::hook_state::{fresh_at, HookState};
use crate::pet_core::PetMood;
use crate::pet_overlay::WalkPhase;

verus! {

/// Every how many frames the machine (Cursor's processes, git) is sampled.
pub const PROBE_EVERY: u64 = 20;

/// Every how many frames the mood is pushed to the page even unchanged.
pub const REPUBLISH_EVERY: u64 = 60;

pub open spec fn walk_phase_name(p: WalkPhase) -> Seq<char> {
    match p {
        WalkPhase::Off => "off"@,
        WalkPhase::Idle => "idle"@,
        WalkPhase::HoverIntent => "hover_intent"@,
        WalkPhase::Following => "following"@,
    }
}

/// The name of a walk phase on the page.
pub fn walk_phase_js(p: WalkPhase) -> (r: &'static str)
    ensures
        r@ == walk_phase_name(p),
{
    match p {
        WalkPhase::Off => "off",
        WalkPhase::Idle => "idle",
        WalkPhase::HoverIntent => "hover_intent",
        WalkPhase::Following => "following",
    }
}

/// The loop's own state.
pub struct PetLoop {
    /// Frames run so far (wrapping).
    pub tick: u64,
    /// The mood last pushed to the page.
    pub last_published: PetMood,
    /// The `ts` of the snapshot found on disk at boot (0 where there was none).
    pub boot_hook_ts: u64,
}

/// A snapshot as the loop passes it on: the one found at boot loses its time
/// and session, so that a leftover from an earlier run drives nothing.
pub open spec fn masked(h: HookState, boot_ts: u64) -> HookState {
    if boot_ts != 0 && h.ts == boot_ts {
        HookState { ts: 0, session_active: false, ..h }
    } else {
        h
    }
}

impl PetLoop {
    pub fn new(boot_hook_ts: u64) -> (r: Self)
        ensures
            r.tick == 0,
            r.last_published == PetMood::Sleeping,
            r.boot_hook_ts == boot_hook_ts,
    {
        PetLoop { tick: 0, last_published: PetMood::Sleeping, boot_hook_ts }
    }

    pub fn mask_boot_snapshot(&self, hook: HookState) -> (r: HookState)
        ensures
            r == masked(hook, self.boot_hook_ts),
    {
        let mut hook = hook;
        if self.boot_hook_ts != 0 && hook.ts == self.boot_hook_ts {
            hook.ts = 0;
            hook.session_active = false;
        }
        hook
    }

    /// Whether this frame samples the machine.
    pub fn probe_due(&self) -> (r: bool)
        ensures
            r == (self.tick % PROBE_EVERY == 0),
    {
        self.tick % PROBE_EVERY == 0
    }

    /// Whether this frame pushes the mood: when it changed, and every
    /// `REPUBLISH_EVERY` frames.
    pub fn publish_due(&self, mood: PetMood) -> (r: bool)
        ensures
            r == (mood != self.last_published || self.tick % REPUBLISH_EVERY == 0),
    {
        mood != self.last_published || self.tick % REPUBLISH_EVERY == 0
    }

    pub fn mood_published(&mut self, mood: PetMood)
        ensures
            final(self).last_published == mood,
            final(self).tick == old(self).tick,
            final(self).boot_hook_ts == old(self).boot_hook_ts,
    {
        self.last_published = mood;
    }

    /// Ends a frame.
    pub fn advance(&mut self)
        ensures
            final(self).tick == if old(self).tick == u64::MAX {
                0
            } else {
                (old(self).tick + 1) as u64
            },
            final(self).last_published == old(self).last_published,
            final(self).boot_hook_ts == old(self).boot_hook_ts,
    {
        self.tick = self.tick.wrapping_add(1);
    }
}

/// A snapshot left on disk from before boot is never fresh for the pet.
pub proof fn law_boot_snapshot_never_fresh(h: HookState, boot_ts: u64, epoch: u64)
    requires
        boot_ts != 0,
        h.ts == boot_ts,
    ensures
        !fresh_at(masked(h, boot_ts).ts, epoch),
        !masked(h, boot_ts).session_active,
{
}

/// One character quoted for a double-quoted script string: `\` and `"` get a
/// backslash.
pub open spec fn escape_dq_char(c: char) -> Seq<char> {
    if c == '\\' {
        seq!['\\', '\\']
    } else if c == '"' {
        seq!['\\', '"']
    } else {
        seq![c]
    }
}

pub open spec fn escape_dq(s: Seq<char>) -> Seq<char>
    decreases s.len(),
{
    if s.len() == 0 {
        seq![]
    } else {
        escape_dq(s.drop_last()) + escape_dq_char(s.last())
    }
}

/// One character quoted for a single-quoted script string: `'` gets a backslash.
pub open spec fn escape_sq_char(c: char) -> Seq<char> {
    if c == '\'' {
        seq!['\\', '\'']
    } else {
        seq![c]
    }
}

pub open spec fn escape_sq(s: Seq<char>) -> Seq<char>
    decreases s.len(),
{
    if s.len() == 0 {
        seq![]
    } else {
        escape_sq(s.drop_last()) + escape_sq_char(s.last())
    }
}

/// `s` quoted for a double-quoted script string (what replacing `\` by `\\`
/// and then `"` by `\"` gives).
pub fn escape_for_double_quotes(s: &str) -> (r: String)
    ensures
        r@ == escape_dq(s@),
{
    let n = s.unicode_len();
    let mut out = String::new();
    let mut i: usize = 0;
    while i < n
        invariant
            n == s@.len(),
            i <= n,
            out@ == escape_dq(s@.take(i as int)),
        decreases n - i,
    {
        let c = s.get_char(i);
        proof {
            assert(s@.take(i + 1).drop_last() =~= s@.take(i as int));
            assert(s@.take(i + 1).last() == c);
        }
        if c == '\\' {
            out.append("\\\\");
            proof {
                reveal_strlit("\\\\");
                assert("\\\\"@ =~= seq!['\\', '\\']);
            }
        } else if c == '"' {
            out.append("\\\"");
            proof {
                reveal_strlit("\\\"");
                assert("\\\""@ =~= seq!['\\', '"']);
            }
        } else {
            let one = s.substring_char(i, i + 1);
            assert(one@ =~= seq![c]);
            out.append(one);
        }
        i = i + 1;
    }
    assert(s@.take(n as int) =~= s@);
    out
}

/// `s` quoted for a single-quoted script string (what replacing `'` by `\'`
/// gives).
pub fn escape_for_single_quotes(s: &str) -> (r: String)
    ensures
        r@ == escape_sq(s@),
{
    let n = s.unicode_len();
    let mut out = String::new();
    let mut i: usize = 0;
    while i < n
        invariant
            n == s@.len(),
            i <= n,
            out@ == escape_sq(s@.take(i as int)),
        decreases n - i,
    {
        let c = s.get_char(i);
        proof {
            assert(s@.take(i + 1).drop_last() =~= s@.take(i as int));
            assert(s@.take(i + 1).last() == c);
        }
        if c == '\'' {
            out.append("\\'");
            proof {
                reveal_strlit("\\'");
                assert("\\'"@ =~= seq!['\\', '\'']);
            }
        } else {
            let one = s.substring_char(i, i + 1);
            assert(one@ =~= seq![c]);
            out.append(one);
        }
        i = i + 1;
    }
    assert(s@.take(n as int) =~= s@);
    out
}

} // verus!
