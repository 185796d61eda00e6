//! The hook side: how one Cursor hook event changes the snapshot that the pet
//! reads, and what the hook answers Cursor.
use vstd::prelude::*;

use crate::hook_state::{fresh_at, tools_view, HookState, InFlightTool, InFlightToolView};
use crate::pet_core::{activity_of, brain_step, Activity, BrainModel, PetMood, SUCCESS_HOLD_MS};
use crate::text::{contains, has_infix, has_prefix, lowercase, starts_with, strip_prefix, text_eq, to_lowercase};

verus! {

/// The fields of a hook event that the hook reads.
pub struct HookInput {
    pub hook_event_name: String,
    pub tool_name: Option<String>,
    pub status: Option<String>,
    pub duration: Option<u64>,
    /// Pairs a `preToolUse` with the `postToolUse` or `postToolUseFailure` that
    /// ends the same tool.
    pub tool_use_id: Option<String>,
}

pub struct HookInputView {
    pub name: Seq<char>,
    pub tool: Option<Seq<char>>,
    pub status: Option<Seq<char>>,
    pub duration: Option<u64>,
    pub tool_use_id: Option<Seq<char>>,
}

pub open spec fn opt_view(o: Option<String>) -> Option<Seq<char>> {
    match o {
        Some(s) => Some(s@),
        None => None,
    }
}

impl View for HookInput {
    type V = HookInputView;

    open spec fn view(&self) -> HookInputView {
        HookInputView {
            name: self.hook_event_name@,
            tool: opt_view(self.tool_name),
            status: opt_view(self.status),
            duration: self.duration,
            tool_use_id: opt_view(self.tool_use_id),
        }
    }
}

/// The snapshot that the hook writes to `~/.nixie/state.json`.
#[derive(Debug, Clone, Default)]
pub struct NixieState {
    pub ts: u64,
    pub activity: String,
    pub session_active: bool,
    pub tool_success_ts: Option<u64>,
    pub file_edit_success_ts: Option<u64>,
    pub last_event_duration_ms: Option<u64>,
    /// When the user submitted the current task (epoch ms).
    pub task_started_at_ms: Option<u64>,
    /// Tools started and not yet finished, in the order they started.
    pub in_flight_tools: Vec<InFlightTool>,
    /// How many sub-agents run.
    pub subagent_depth: u32,
}

pub struct NixieStateView {
    pub ts: u64,
    pub activity: Seq<char>,
    pub session_active: bool,
    pub tool_success_ts: Option<u64>,
    pub file_edit_success_ts: Option<u64>,
    pub last_event_duration_ms: Option<u64>,
    pub task_started_at_ms: Option<u64>,
    pub in_flight_tools: Seq<InFlightToolView>,
    pub subagent_depth: u32,
}

impl View for NixieState {
    type V = NixieStateView;

    open spec fn view(&self) -> NixieStateView {
        NixieStateView {
            ts: self.ts,
            activity: self.activity@,
            session_active: self.session_active,
            tool_success_ts: self.tool_success_ts,
            file_edit_success_ts: self.file_edit_success_ts,
            last_event_duration_ms: self.last_event_duration_ms,
            task_started_at_ms: self.task_started_at_ms,
            in_flight_tools: tools_view(self.in_flight_tools@),
            subagent_depth: self.subagent_depth,
        }
    }
}

/// A lowercased MCP tool name that mentions the web, fetching or firecrawl.
pub open spec fn names_web(lower: Seq<char>) -> bool {
    has_infix(lower, "web"@) || has_infix(lower, "fetch"@) || has_infix(lower, "firecrawl"@)
}

/// The activity of an MCP tool, from its lowercased name: web search where the
/// name mentions the web, else running.
pub open spec fn mcp_activity(lower: Seq<char>) -> Seq<char> {
    if names_web(lower) {
        "agent_web_search"@
    } else {
        "agent_running"@
    }
}

/// The activity that `preToolUse` records for a tool.
pub open spec fn tool_activity(tool: Seq<char>) -> Seq<char> {
    if tool == "Read"@ || tool == "Grep"@ || tool == "Glob"@ || tool == "SemanticSearch"@ {
        "agent_searching"@
    } else if tool == "Shell"@ {
        "agent_running"@
    } else if tool == "Write"@ || tool == "StrReplace"@ || tool == "Delete"@ || tool
        == "EditNotebook"@ {
        "agent_writing"@
    } else if tool == "Task"@ {
        "agent_thinking"@
    } else if has_prefix(tool, "MCP:"@) {
        mcp_activity(lowercase(tool.subrange("MCP:"@.len() as int, tool.len() as int)))
    } else {
        "agent_thinking"@
    }
}

/// The activity and session flag that an event records on the default path.
pub open spec fn event_activity(e: HookInputView) -> (Seq<char>, bool) {
    let name = e.name;
    if name == "sessionStart"@ {
        ("idle"@, true)
    } else if name == "sessionEnd"@ {
        ("idle"@, false)
    } else if name == "afterAgentThought"@ {
        ("agent_thinking"@, true)
    } else if name == "preToolUse"@ {
        (
            tool_activity(
                match e.tool {
                    Some(t) => t,
                    None => ""@,
                },
            ),
            true,
        )
    } else if name == "afterFileEdit"@ {
        ("idle"@, true)
    } else if name == "afterShellExecution"@ {
        ("idle"@, true)
    } else if name == "postToolUseFailure"@ {
        ("agent_error"@, true)
    } else if name == "stop"@ {
        let status = match e.status {
            Some(s) => s,
            None => ""@,
        };
        if status == "completed"@ {
            ("agent_success"@, false)
        } else if status == "error"@ {
            ("agent_error"@, false)
        } else {
            ("idle"@, false)
        }
    } else if name == "subagentStart"@ {
        ("agent_thinking"@, true)
    } else if name == "subagentStop"@ {
        ("idle"@, true)
    } else if name == "beforeSubmitPrompt"@ {
        ("agent_thinking"@, true)
    } else if name == "afterAgentResponse"@ {
        ("agent_thinking"@, true)
    } else if name == "afterMCPExecution"@ {
        ("idle"@, true)
    } else if name == "preCompact"@ {
        ("agent_thinking"@, true)
    } else if name == "beforeReadFile"@ {
        ("agent_searching"@, true)
    } else {
        ("idle"@, true)
    }
}

/// The activity of an MCP tool, given its name already lowercased.
pub fn mcp_tool_activity(lower: &str) -> (r: &'static str)
    ensures
        r@ == mcp_activity(lower@),
{
    if contains(lower, "web") || contains(lower, "fetch") || contains(lower, "firecrawl") {
        "agent_web_search"
    } else {
        "agent_running"
    }
}

fn tool_activity_of(tool: &str) -> (r: &'static str)
    ensures
        r@ == tool_activity(tool@),
{
    if text_eq(tool, "Read") || text_eq(tool, "Grep") || text_eq(tool, "Glob") || text_eq(
        tool,
        "SemanticSearch",
    ) {
        "agent_searching"
    } else if text_eq(tool, "Shell") {
        "agent_running"
    } else if text_eq(tool, "Write") || text_eq(tool, "StrReplace") || text_eq(tool, "Delete")
        || text_eq(tool, "EditNotebook") {
        "agent_writing"
    } else if text_eq(tool, "Task") {
        "agent_thinking"
    } else {
        match strip_prefix(tool, "MCP:") {
            Some(rest) => {
                let name = to_lowercase(rest);
                mcp_tool_activity(name.as_str())
            },
            None => "agent_thinking",
        }
    }
}

/// The activity and session flag for an event on the default path.
pub fn map_event(input: &HookInput) -> (r: (&'static str, bool))
    ensures
        r.0@ == event_activity(input@).0,
        r.1 == event_activity(input@).1,
{
    let name = input.hook_event_name.as_str();
    if text_eq(name, "sessionStart") {
        ("idle", true)
    } else if text_eq(name, "sessionEnd") {
        ("idle", false)
    } else if text_eq(name, "afterAgentThought") {
        ("agent_thinking", true)
    } else if text_eq(name, "preToolUse") {
        let tool: &str = match &input.tool_name {
            Some(t) => t.as_str(),
            None => "",
        };
        (tool_activity_of(tool), true)
    } else if text_eq(name, "afterFileEdit") {
        ("idle", true)
    } else if text_eq(name, "afterShellExecution") {
        ("idle", true)
    } else if text_eq(name, "postToolUseFailure") {
        ("agent_error", true)
    } else if text_eq(name, "stop") {
        let status: &str = match &input.status {
            Some(s) => s.as_str(),
            None => "",
        };
        if text_eq(status, "completed") {
            ("agent_success", false)
        } else if text_eq(status, "error") {
            ("agent_error", false)
        } else {
            ("idle", false)
        }
    } else if text_eq(name, "subagentStart") {
        ("agent_thinking", true)
    } else if text_eq(name, "subagentStop") {
        ("idle", true)
    } else if text_eq(name, "beforeSubmitPrompt") {
        ("agent_thinking", true)
    } else if text_eq(name, "afterAgentResponse") {
        ("agent_thinking", true)
    } else if text_eq(name, "afterMCPExecution") {
        ("idle", true)
    } else if text_eq(name, "preCompact") {
        ("agent_thinking", true)
    } else if text_eq(name, "beforeReadFile") {
        ("agent_searching", true)
    } else {
        ("idle", true)
    }
}

/// The tools in flight without those started under `id`.
pub open spec fn without_id(tools: Seq<InFlightToolView>, id: Seq<char>) -> Seq<InFlightToolView>
    decreases tools.len(),
{
    if tools.len() == 0 {
        tools
    } else {
        let rest = without_id(tools.drop_last(), id);
        if tools.last().tool_use_id == id {
            rest
        } else {
            rest.push(tools.last())
        }
    }
}

/// The tools in flight once the tool `id` has finished; an event without an
/// id finishes none.
pub open spec fn finish_tool(tools: Seq<InFlightToolView>, id: Option<Seq<char>>) -> Seq<
    InFlightToolView,
> {
    match id {
        Some(x) => without_id(tools, x),
        None => tools,
    }
}

/// The entry that `preToolUse` adds for its tool (an empty id where the event
/// carries none).
pub open spec fn started_tool(e: HookInputView, t: u64) -> InFlightToolView {
    InFlightToolView {
        tool_use_id: match e.tool_use_id {
            Some(x) => x,
            None => Seq::empty(),
        },
        cluster: event_activity(e).0,
        started_at_ms: t,
    }
}

/// The event ends the whole run: `sessionEnd` or `stop`.
pub open spec fn ends_run(e: HookInputView) -> bool {
    e.name == "sessionEnd"@ || e.name == "stop"@
}

/// The tools in flight after an event on the default path.
pub open spec fn tools_after(prev: Seq<InFlightToolView>, e: HookInputView, t: u64) -> Seq<
    InFlightToolView,
> {
    if ends_run(e) {
        Seq::empty()
    } else if e.name == "preToolUse"@ {
        prev.push(started_tool(e, t))
    } else if e.name == "postToolUseFailure"@ {
        finish_tool(prev, e.tool_use_id)
    } else {
        prev
    }
}

/// The sub-agent depth after an event on the default path (saturating).
pub open spec fn depth_after(prev: u32, e: HookInputView) -> u32 {
    if ends_run(e) {
        0
    } else if e.name == "subagentStart"@ {
        if prev == u32::MAX {
            prev
        } else {
            (prev + 1) as u32
        }
    } else if e.name == "subagentStop"@ {
        if prev == 0 {
            0
        } else {
            (prev - 1) as u32
        }
    } else {
        prev
    }
}

/// The snapshot after an event arriving at epoch time `t`.
pub open spec fn state_after(prev: NixieStateView, e: HookInputView, t: u64) -> NixieStateView {
    if e.name == "postToolUse"@ {
        NixieStateView {
            ts: t,
            tool_success_ts: Some(t),
            last_event_duration_ms: e.duration,
            in_flight_tools: finish_tool(prev.in_flight_tools, e.tool_use_id),
            ..prev
        }
    } else if e.name == "afterFileEdit"@ {
        NixieStateView { file_edit_success_ts: Some(t), ..prev }
    } else {
        NixieStateView {
            ts: t,
            activity: event_activity(e).0,
            session_active: event_activity(e).1,
            tool_success_ts: None,
            file_edit_success_ts: None,
            last_event_duration_ms: e.duration,
            task_started_at_ms: if e.name == "beforeSubmitPrompt"@ {
                Some(t)
            } else {
                prev.task_started_at_ms
            },
            in_flight_tools: tools_after(prev.in_flight_tools, e, t),
            subagent_depth: depth_after(prev.subagent_depth, e),
        }
    }
}

/// The tools in flight without those started under `id`, in their order.
pub fn without_tool(tools: &Vec<InFlightTool>, id: &str) -> (r: Vec<InFlightTool>)
    ensures
        tools_view(r@) == without_id(tools_view(tools@), id@),
{
    let mut kept: Vec<InFlightTool> = Vec::new();
    let mut i: usize = 0;
    while i < tools.len()
        invariant
            i <= tools@.len(),
            tools_view(kept@) == without_id(tools_view(tools@.take(i as int)), id@),
        decreases tools@.len() - i,
    {
        let t = &tools[i];
        let ghost before = kept@;
        proof {
            assert(tools_view(tools@.take(i + 1)).drop_last() =~= tools_view(tools@.take(i as int)));
            assert(tools_view(tools@.take(i + 1)).last() == t@);
        }
        if !text_eq(t.tool_use_id.as_str(), id) {
            kept.push(
                InFlightTool {
                    tool_use_id: t.tool_use_id.clone(),
                    cluster: t.cluster.clone(),
                    started_at_ms: t.started_at_ms,
                },
            );
            proof {
                assert(tools_view(kept@) =~= tools_view(before).push(t@));
            }
        }
        i = i + 1;
    }
    assert(tools@.take(tools@.len() as int) =~= tools@);
    kept
}

/// The tools in flight once the event's tool has finished.
fn finish_tool_of(tools: Vec<InFlightTool>, id: &Option<String>) -> (r: Vec<InFlightTool>)
    ensures
        tools_view(r@) == finish_tool(tools_view(tools@), opt_view(*id)),
{
    match id {
        Some(x) => without_tool(&tools, x.as_str()),
        None => tools,
    }
}

/// Applies an event arriving at epoch time `t` to the snapshot read from disk.
/// `postToolUse` only records the success (and the time); `afterFileEdit` only
/// records the edit, keeping the activity and the time; every other event
/// records its activity and clears both one-off markers.
pub fn apply_event(prev: NixieState, input: &HookInput, t: u64) -> (r: NixieState)
    ensures
        r@ == state_after(prev@, input@, t),
{
    proof {
        lemma_event_names();
    }
    let name = input.hook_event_name.as_str();
    if text_eq(name, "postToolUse") {
        let mut next = prev;
        next.ts = t;
        next.tool_success_ts = Some(t);
        next.last_event_duration_ms = input.duration;
        next.in_flight_tools = finish_tool_of(next.in_flight_tools, &input.tool_use_id);
        assert(next@.in_flight_tools == finish_tool(prev@.in_flight_tools, input@.tool_use_id));
        next
    } else if text_eq(name, "afterFileEdit") {
        let mut next = prev;
        next.file_edit_success_ts = Some(t);
        next
    } else {
        let (activity, session_active) = map_event(input);
        let mut s = prev;
        s.ts = t;
        s.activity = activity.to_string();
        s.session_active = session_active;
        s.tool_success_ts = None;
        s.file_edit_success_ts = None;
        if text_eq(name, "beforeSubmitPrompt") {
            s.task_started_at_ms = Some(t);
        }
        s.last_event_duration_ms = input.duration;
        if text_eq(name, "sessionEnd") || text_eq(name, "stop") {
            s.in_flight_tools = Vec::new();
            s.subagent_depth = 0;
        } else if text_eq(name, "preToolUse") {
            let id = match &input.tool_use_id {
                Some(x) => x.clone(),
                None => String::new(),
            };
            s.in_flight_tools.push(
                InFlightTool { tool_use_id: id, cluster: activity.to_string(), started_at_ms: t },
            );
            proof {
                assert(tools_view(s.in_flight_tools@) =~= tools_view(prev.in_flight_tools@).push(
                    started_tool(input@, t),
                ));
            }
        } else if text_eq(name, "postToolUseFailure") {
            s.in_flight_tools = finish_tool_of(s.in_flight_tools, &input.tool_use_id);
        } else if text_eq(name, "subagentStart") {
            s.subagent_depth = s.subagent_depth.saturating_add(1);
        } else if text_eq(name, "subagentStop") {
            s.subagent_depth = s.subagent_depth.saturating_sub(1);
        }
        assert(s@.in_flight_tools == tools_after(prev@.in_flight_tools, input@, t));
        assert(s@.subagent_depth == depth_after(prev@.subagent_depth, input@));
        assert(s@.activity == event_activity(input@).0);
        s
    }
}

pub open spec fn needs_permission(event: Seq<char>) -> bool {
    event == "preToolUse"@ || event == "beforeShellExecution"@ || event == "beforeMCPExecution"@
}

/// The events to which Cursor awaits a permission answer.
pub fn needs_permission_response(event: &str) -> (r: bool)
    ensures
        r == needs_permission(event@),
{
    text_eq(event, "preToolUse") || text_eq(event, "beforeShellExecution") || text_eq(
        event,
        "beforeMCPExecution",
    )
}

/// What the hook writes back to Cursor.
#[derive(Debug, Clone, Copy, PartialEq, Eq, Structural)]
pub enum HookReply {
    /// `{"permission":"allow"}`
    Allow,
    /// `{"continue":true}`
    Continue,
    /// Nothing.
    Silent,
}

pub open spec fn reply_spec(event: Seq<char>) -> HookReply {
    if needs_permission(event) {
        HookReply::Allow
    } else if event == "beforeSubmitPrompt"@ {
        HookReply::Continue
    } else {
        HookReply::Silent
    }
}

/// The answer for an event: permission events are allowed, a submitted prompt
/// may continue, the rest get none.
pub fn reply_for(event: &str) -> (r: HookReply)
    ensures
        r == reply_spec(event@),
{
    if needs_permission_response(event) {
        HookReply::Allow
    } else if text_eq(event, "beforeSubmitPrompt") {
        HookReply::Continue
    } else {
        HookReply::Silent
    }
}

/// Lengths and distinguishing characters of the event names.
proof fn lemma_event_names()
    ensures
        "sessionStart"@.len() == 12,
        "sessionStart"@[0] == 's',
        "sessionStart"@[1] == 'e',
        "sessionEnd"@.len() == 10,
        "sessionEnd"@[0] == 's',
        "afterAgentThought"@.len() == 17,
        "afterAgentThought"@[0] == 'a',
        "afterAgentThought"@[5] == 'A',
        "preToolUse"@.len() == 10,
        "preToolUse"@[0] == 'p',
        "preToolUse"@[3] == 'T',
        "afterFileEdit"@.len() == 13,
        "afterFileEdit"@[0] == 'a',
        "afterShellExecution"@.len() == 19,
        "afterShellExecution"@[0] == 'a',
        "postToolUseFailure"@.len() == 18,
        "postToolUseFailure"@[0] == 'p',
        "stop"@.len() == 4,
        "stop"@[0] == 's',
        "subagentStart"@.len() == 13,
        "subagentStart"@[0] == 's',
        "subagentStop"@.len() == 12,
        "subagentStop"@[0] == 's',
        "subagentStop"@[1] == 'u',
        "beforeSubmitPrompt"@.len() == 18,
        "beforeSubmitPrompt"@[0] == 'b',
        "beforeSubmitPrompt"@[6] == 'S',
        "afterAgentResponse"@.len() == 18,
        "afterAgentResponse"@[0] == 'a',
        "afterMCPExecution"@.len() == 17,
        "afterMCPExecution"@[0] == 'a',
        "afterMCPExecution"@[5] == 'M',
        "preCompact"@.len() == 10,
        "preCompact"@[0] == 'p',
        "preCompact"@[3] == 'C',
        "beforeReadFile"@.len() == 14,
        "beforeReadFile"@[0] == 'b',
        "postToolUse"@.len() == 11,
        "postToolUse"@[0] == 'p',
        "beforeShellExecution"@.len() == 20,
        "beforeShellExecution"@[0] == 'b',
        "beforeMCPExecution"@.len() == 18,
        "beforeMCPExecution"@[0] == 'b',
        "beforeMCPExecution"@[6] == 'M',
{
    reveal_strlit("sessionStart");
    reveal_strlit("sessionEnd");
    reveal_strlit("afterAgentThought");
    reveal_strlit("preToolUse");
    reveal_strlit("afterFileEdit");
    reveal_strlit("afterShellExecution");
    reveal_strlit("postToolUseFailure");
    reveal_strlit("stop");
    reveal_strlit("subagentStart");
    reveal_strlit("subagentStop");
    reveal_strlit("beforeSubmitPrompt");
    reveal_strlit("afterAgentResponse");
    reveal_strlit("afterMCPExecution");
    reveal_strlit("preCompact");
    reveal_strlit("beforeReadFile");
    reveal_strlit("postToolUse");
    reveal_strlit("beforeShellExecution");
    reveal_strlit("beforeMCPExecution");
}

/// `afterFileEdit` only records the edit: activity, session and time stay.
pub proof fn law_file_edit_keeps_activity(prev: NixieStateView, e: HookInputView, t: u64)
    requires
        e.name == "afterFileEdit"@,
    ensures
        state_after(prev, e, t).activity == prev.activity,
        state_after(prev, e, t).session_active == prev.session_active,
        state_after(prev, e, t).ts == prev.ts,
        state_after(prev, e, t).file_edit_success_ts == Some(t),
{
    lemma_event_names();
}

/// `postToolUse` records the success without changing the activity or session.
pub proof fn law_tool_success_keeps_activity(prev: NixieStateView, e: HookInputView, t: u64)
    requires
        e.name == "postToolUse"@,
    ensures
        state_after(prev, e, t).activity == prev.activity,
        state_after(prev, e, t).session_active == prev.session_active,
        state_after(prev, e, t).tool_success_ts == Some(t),
        state_after(prev, e, t).ts == t,
{
    lemma_event_names();
}

/// On the default path only `sessionEnd` and `stop` end the session.
pub proof fn law_only_end_and_stop_close_session(e: HookInputView)
    ensures
        !event_activity(e).1 <==> (e.name == "sessionEnd"@ || e.name == "stop"@),
{
    lemma_event_names();
}

/// Submitting a prompt starts the task clock and shows the agent thinking.
pub proof fn law_submit_starts_task(prev: NixieStateView, e: HookInputView, t: u64)
    requires
        e.name == "beforeSubmitPrompt"@,
    ensures
        state_after(prev, e, t).task_started_at_ms == Some(t),
        state_after(prev, e, t).activity == "agent_thinking"@,
        state_after(prev, e, t).session_active,
{
    lemma_event_names();
}

/// A completed `stop` makes the pet celebrate: once the pet reads the snapshot
/// the hook wrote (while it is fresh) and no Success window is open, it shows
/// Success (a write that has not opened a window before).
pub proof fn law_completed_stop_shows_success(
    prev: NixieStateView,
    e: HookInputView,
    t: u64,
    h: HookState,
    m: BrainModel,
    now: u64,
    epoch: u64,
)
    requires
        e.name == "stop"@,
        e.status == Some("completed"@),
        h.ts == state_after(prev, e, t).ts,
        h.activity@ == state_after(prev, e, t).activity,
        t > 0,
        t <= epoch < t + 10_000,
        m.success_until is None,
        m.success_hook_ts != Some(h.ts),
        now + SUCCESS_HOLD_MS <= u64::MAX,
    ensures
        brain_step(m, h, now, epoch).mood == PetMood::Success,
{
    lemma_event_names();
    reveal_strlit("agent_success");
    reveal_strlit("idle");
    assert("agent_success"@.len() == 13);
    assert("idle"@.len() == 4);
    assert(h.activity@ == "agent_success"@);
    assert(activity_of(h.activity@) == Activity::Success);
    assert(fresh_at(h.ts, epoch));
}

proof fn lemma_without_absent_id(tools: Seq<InFlightToolView>, id: Seq<char>)
    requires
        forall|i: int| 0 <= i < tools.len() ==> #[trigger] tools[i].tool_use_id != id,
    ensures
        without_id(tools, id) == tools,
    decreases tools.len(),
{
    if tools.len() > 0 {
        let init = tools.drop_last();
        assert forall|i: int| 0 <= i < init.len() implies #[trigger] init[i].tool_use_id != id by {
            assert(init[i] == tools[i]);
        }
        lemma_without_absent_id(init, id);
        assert(init.push(tools.last()) =~= tools);
    }
}

/// A tool that starts (`preToolUse`) under an id no tool in flight has, and
/// then finishes (`postToolUse` with the same id), leaves the tools in flight
/// as they were.
pub proof fn law_tool_start_then_finish(
    prev: NixieStateView,
    start: HookInputView,
    t1: u64,
    finish: HookInputView,
    t2: u64,
    id: Seq<char>,
)
    requires
        start.name == "preToolUse"@,
        start.tool_use_id == Some(id),
        finish.name == "postToolUse"@,
        finish.tool_use_id == Some(id),
        forall|i: int|
            0 <= i < prev.in_flight_tools.len() ==> #[trigger] prev.in_flight_tools[i].tool_use_id
                != id,
    ensures
        state_after(state_after(prev, start, t1), finish, t2).in_flight_tools
            == prev.in_flight_tools,
        state_after(prev, start, t1).in_flight_tools.last().cluster == event_activity(start).0,
{
    lemma_event_names();
    let pushed = prev.in_flight_tools.push(started_tool(start, t1));
    assert(pushed.drop_last() =~= prev.in_flight_tools);
    lemma_without_absent_id(prev.in_flight_tools, id);
}

/// `sessionEnd` and `stop` end the run: no tool stays in flight and no
/// sub-agent is counted.
pub proof fn law_run_end_clears_work(prev: NixieStateView, e: HookInputView, t: u64)
    requires
        ends_run(e),
    ensures
        state_after(prev, e, t).in_flight_tools.len() == 0,
        state_after(prev, e, t).subagent_depth == 0,
{
    lemma_event_names();
}

/// A sub-agent that starts and then stops leaves the depth as it was.
pub proof fn law_subagent_start_then_stop(
    prev: NixieStateView,
    start: HookInputView,
    t1: u64,
    stop: HookInputView,
    t2: u64,
)
    requires
        start.name == "subagentStart"@,
        stop.name == "subagentStop"@,
        prev.subagent_depth < u32::MAX,
    ensures
        state_after(prev, start, t1).subagent_depth == prev.subagent_depth + 1,
        state_after(state_after(prev, start, t1), stop, t2).subagent_depth == prev.subagent_depth,
{
    lemma_event_names();
}


/// Only `beforeSubmitPrompt` touches the task start: it sets it to the event's
/// time, and every other event (`stop` and `sessionEnd` among them) leaves it
/// as the previous snapshot had it, so a finished task is timed from its
/// submission.
pub proof fn law_task_start_kept_until_next_submit(prev: NixieStateView, e: HookInputView, t: u64)
    ensures
        e.name == "beforeSubmitPrompt"@ ==> state_after(prev, e, t).task_started_at_ms == Some(t),
        e.name != "beforeSubmitPrompt"@ ==> state_after(prev, e, t).task_started_at_ms
            == prev.task_started_at_ms,
{
    lemma_event_names();
}

/// The hook answers Allow exactly on `preToolUse`, `beforeShellExecution` and
/// `beforeMCPExecution`, Continue exactly on `beforeSubmitPrompt`, and nothing
/// on every other event.
pub proof fn law_reply_by_event(event: Seq<char>)
    ensures
        (reply_spec(event) == HookReply::Allow) <==> (event == "preToolUse"@ || event
            == "beforeShellExecution"@ || event == "beforeMCPExecution"@),
        (reply_spec(event) == HookReply::Continue) <==> event == "beforeSubmitPrompt"@,
        (reply_spec(event) == HookReply::Silent) <==> !(event == "preToolUse"@ || event
            == "beforeShellExecution"@ || event == "beforeMCPExecution"@ || event
            == "beforeSubmitPrompt"@),
{
    lemma_event_names();
}

/// Every event but `afterFileEdit` stamps the snapshot with its own time;
/// `afterFileEdit` keeps the time it found.
pub proof fn law_events_stamp_time(prev: NixieStateView, e: HookInputView, t: u64)
    ensures
        e.name != "afterFileEdit"@ ==> state_after(prev, e, t).ts == t,
        e.name == "afterFileEdit"@ ==> state_after(prev, e, t).ts == prev.ts,
{
    lemma_event_names();
}
} // verus!
