//! The snapshot of the agent's activity that the hook writes and the pet reads.
use vstd::prelude::*;

use crate::clock::{elapsed, now_epoch_ms};

verus! {

/// How long (ms) a snapshot counts as fresh after it was written.
pub const FRESH_WINDOW_MS: u64 = 10_000;

/// A tool that the agent has started and not yet finished.
#[derive(Debug, Clone, Default)]
pub struct InFlightTool {
    pub tool_use_id: String,
    /// The activity the tool stands for (`agent_running`, `agent_writing`, ...).
    pub cluster: String,
    pub started_at_ms: u64,
}

pub struct InFlightToolView {
    pub tool_use_id: Seq<char>,
    pub cluster: Seq<char>,
    pub started_at_ms: u64,
}

impl View for InFlightTool {
    type V = InFlightToolView;

    open spec fn view(&self) -> InFlightToolView {
        InFlightToolView {
            tool_use_id: self.tool_use_id@,
            cluster: self.cluster@,
            started_at_ms: self.started_at_ms,
        }
    }
}

/// The tools in flight, each by its view.
pub open spec fn tools_view(tools: Seq<InFlightTool>) -> Seq<InFlightToolView> {
    tools.map_values(|t: InFlightTool| t@)
}

/// One snapshot of `~/.nixie/state.json`.
#[derive(Debug, Clone, Default)]
pub struct HookState {
    /// Grows with every write; orders a pushed snapshot against the one on disk.
    pub seq: u64,
    /// Epoch ms of the last write through the default event path; 0 when unknown.
    pub ts: u64,
    pub activity: String,
    pub session_active: bool,
    /// Set when a tool has just succeeded; the pet shows one toast per value.
    pub tool_success_ts: Option<u64>,
    /// Set when a file edit has completed; the pet shows one toast per value.
    pub file_edit_success_ts: Option<u64>,
    /// Duration of the last hook event, where the event carried one.
    pub last_event_duration_ms: Option<u64>,
    /// Epoch ms at which the user submitted the current task.
    pub task_started_at_ms: Option<u64>,
    /// Tools started (`preToolUse`) and not yet finished.
    pub in_flight_tools: Vec<InFlightTool>,
    /// How many sub-agents run.
    pub subagent_depth: u32,
}

/// Age in ms of a snapshot written at `ts`, read at `now`.
pub open spec fn age_at(ts: u64, now: u64) -> u64 {
    elapsed(now, ts)
}

/// A snapshot written at `ts` is fresh at `now`: it has a time and is less than
/// ten seconds old.
pub open spec fn fresh_at(ts: u64, now: u64) -> bool {
    ts > 0 && age_at(ts, now) < FRESH_WINDOW_MS
}

impl HookState {
    /// Age of this snapshot at the epoch time `now_ms`.
    pub fn age_ms_at(&self, now_ms: u64) -> (r: u64)
        ensures
            r == age_at(self.ts, now_ms),
    {
        now_ms.saturating_sub(self.ts)
    }

    /// Age of this snapshot now, by the system clock.
    pub fn age_ms(&self) -> (r: u64)
        ensures
            exists|now: u64| r == age_at(self.ts, now),
    {
        let now = now_epoch_ms();
        let r = self.age_ms_at(now);
        assert(r == age_at(self.ts, now));
        r
    }

    /// Whether this snapshot is fresh at the epoch time `now_ms`.
    pub fn is_fresh_at(&self, now_ms: u64) -> (r: bool)
        ensures
            r == fresh_at(self.ts, now_ms),
    {
        self.ts > 0 && self.age_ms_at(now_ms) < FRESH_WINDOW_MS
    }

    /// Whether this snapshot is fresh now, by the system clock. Never fresh
    /// without a time.
    pub fn is_fresh(&self) -> (r: bool)
        ensures
            exists|now: u64| r == fresh_at(self.ts, now),
            self.ts == 0 ==> !r,
    {
        let now = now_epoch_ms();
        let r = self.is_fresh_at(now);
        assert(r == fresh_at(self.ts, now));
        r
    }
}

/// Whether a snapshot pushed over the socket replaces the cached one: always
/// where nothing is cached, else only when it is newer by `seq`.
pub fn takes_precedence(cached: &Option<HookState>, incoming: &HookState) -> (r: bool)
    ensures
        r == match cached {
            None => true,
            Some(cur) => incoming.seq > cur.seq,
        },
{
    match cached {
        None => true,
        Some(cur) => incoming.seq > cur.seq,
    }
}

} // verus!
