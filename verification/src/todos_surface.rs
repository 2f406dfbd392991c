//! The todos surface in the activity bar: approvals, the plan, the memory and background tasks.

use crate::keyed::Keyed;
use crate::model::{
    AcpThread, AgentThreadEntry, ApprovalRisk, Color, EntryContent, IconName, LabelSize, Plan,
    StatusIcon, ToolCall, ToolCallContent, ToolCallId, ToolCallStatus, ToolRisk,
};
use crate::terminal_card;
use crate::text;
use crate::thread_view::ThreadView;
use crate::thread_view;
use crate::zed_todos::{
    ApprovalsSection, BackgroundTaskBody, BackgroundTaskRow, GrokFact, GrokMemoryArtifacts,
    MemoryItems, PlanAcceptButton, PlanEntryRow, RiskChip, ZedTodosComponent,
};
use crate::zed_todos;
use vstd::prelude::*;
use vstd::string::*;

verus! {

/// How far a plan has come.
pub struct PlanStats<'a> {
    /// The step that is under way.
    pub in_progress: Option<&'a str>,
    pub pending: u32,
    pub completed: u32,
}

/// The title of a plan.
pub enum PlanTitle {
    /// The step that is under way, and how many are left.
    Current { content: String, left: Option<String> },
    /// The plan as a whole.
    Overview { label: &'static str, color: Color, risk: Option<(String, Color)>, status: String },
}

/// The heading of a plan.
pub struct PlanSummary {
    pub is_expanded: bool,
    pub title: PlanTitle,
    /// The button that accepts a proposed plan.
    pub accept: Option<PlanAcceptButton>,
}

/// How far a plan has come, in words.
pub open spec fn plan_status(total: nat, completed: nat) -> Seq<char> {
    if total == 0 {
        seq![]
    } else if completed == total {
        "All Done"@
    } else {
        text::decimal(completed) + "/"@ + text::decimal(total)
    }
}

/// What the heading of a plan shows: the current step while the plan is collapsed, else how far
/// it has come.
pub open spec fn plan_summary_shows(
    summary: PlanSummary,
    view: ThreadView,
    plan: Plan,
    stats: PlanStats,
    is_proposed: bool,
    plan_risk: ToolRisk,
) -> bool {
    let is_expanded = view.zed_todos.state.plan_expanded;
    &&& summary.is_expanded == is_expanded
    &&& match summary.title {
        PlanTitle::Current { content, left } => {
            &&& !is_expanded
            &&& stats.in_progress matches Some(step) && content@ == step@
            &&& text::optional_view(left) == (if stats.pending > 0 {
                Some(text::decimal(stats.pending as nat) + " left"@)
            } else {
                None
            })
        },
        PlanTitle::Overview { label, color, risk, status } => {
            &&& is_expanded || stats.in_progress is None
            &&& label@ == (if is_proposed {
                "Plan proposed"@
            } else {
                "Plan"@
            })
            &&& color == (if is_proposed {
                Color::Accent
            } else {
                Color::Muted
            })
            &&& match risk {
                Some((word, risk_color)) => is_proposed && word@ == plan_risk.display_label@
                    && risk_color == terminal_card::card_risk_color(plan_risk.risk),
                None => !is_proposed,
            }
            &&& status@ == plan_status(plan.entries@.len(), stats.completed as nat)
        },
    }
    &&& summary.accept is Some <==> is_proposed
    &&& summary.accept matches Some(button) ==> zed_todos::accept_shows(
        button,
        plan_risk.display_label@,
    )
}

/// The heading of the memory.
pub struct MemorySummary {
    pub is_expanded: bool,
    pub label: &'static str,
}

/// What the heading of the memory shows.
pub open spec fn memory_summary_shows(
    summary: MemorySummary,
    view: ThreadView,
    artifacts: GrokMemoryArtifacts,
) -> bool {
    &&& summary.is_expanded == view.zed_todos.state.grok_memory_expanded
    &&& summary.label@ == (if artifacts.has_workspace_memory || artifacts.has_global_memory {
        "Grok Memory: present (RO)"@
    } else {
        "Grok Memory: disabled (RO)"@
    })
}

/// The contents of the facts that have one.
pub open spec fn fact_contents(facts: Seq<GrokFact>) -> Seq<Seq<char>>
    decreases facts.len(),
{
    if facts.len() == 0 {
        seq![]
    } else {
        match facts.last().content {
            Some(content) => fact_contents(facts.drop_last()).push(content@),
            None => fact_contents(facts.drop_last()),
        }
    }
}

/// What a middle click on the memory adds to the prompt: the preview of the workspace's
/// memory, else the facts line by line, else a fixed text.
pub open spec fn memory_prompt(artifacts: GrokMemoryArtifacts) -> Seq<char> {
    match artifacts.workspace_memory_preview {
        Some(preview) => preview@,
        None => if artifacts.facts_from_db@.len() > 0 {
            text::joined(fact_contents(artifacts.facts_from_db@), "\n"@)
        } else {
            "Grok Memory facts (workspace + global)"@
        },
    }
}

/// What a middle click on the memory adds to the prompt.
pub fn memory_text(artifacts: &GrokMemoryArtifacts) -> (r: String)
    ensures
        r@ == memory_prompt(*artifacts),
{
    if let Some(preview) = &artifacts.workspace_memory_preview {
        return preview.clone();
    }
    let facts = &artifacts.facts_from_db;
    if facts.len() == 0 {
        return "Grok Memory facts (workspace + global)".to_owned();
    }
    let mut contents: Vec<String> = Vec::new();
    assert(text::views(contents@) =~= seq![]);
    let mut i: usize = 0;
    while i < facts.len()
        invariant
            i <= facts@.len(),
            text::views(contents@) == fact_contents(facts@.take(i as int)),
        decreases facts@.len() - i,
    {
        assert(facts@.take(i + 1).drop_last() == facts@.take(i as int));
        let ghost before = contents@;
        if let Some(content) = &facts[i].content {
            contents.push(content.clone());
            assert(text::views(contents@) =~= text::views(before).push(content@));
        }
        i = i + 1;
    }
    assert(facts@.take(i as int) == facts@);
    text::join(&contents, "\n")
}

/// The heading of the background tasks.
pub struct BackgroundSummary {
    pub is_expanded: bool,
    pub label: String,
}

/// What the heading of the background tasks shows.
pub open spec fn background_summary_shows(
    summary: BackgroundSummary,
    view: ThreadView,
    count: nat,
) -> bool {
    let is_expanded = view.zed_todos.state.background_tasks_expanded;
    &&& summary.is_expanded == is_expanded
    &&& summary.label@ == (if is_expanded || count == 0 {
        "Background Tasks"@
    } else {
        zed_todos::counted("Background Tasks"@, count)
    })
}

/// The header of the row of a background monitor.
pub struct MonitorHeader {
    pub disclosure_id: String,
    pub is_expanded: bool,
    pub status_icon: StatusIcon,
    pub chip: RiskChip,
    pub label: String,
    pub elapsed: Option<String>,
    pub has_bottom_border: bool,
}

/// The icon for the state of a background monitor.
pub open spec fn monitor_icon(status: ToolCallStatus) -> StatusIcon {
    match status {
        ToolCallStatus::InProgress => StatusIcon::Spinner,
        ToolCallStatus::Pending => StatusIcon::Spinner,
        ToolCallStatus::Completed => StatusIcon::Icon(IconName::Check, Color::Success),
        ToolCallStatus::Failed => StatusIcon::Icon(IconName::Close, Color::Error),
        ToolCallStatus::Rejected => StatusIcon::Icon(IconName::Close, Color::Error),
        ToolCallStatus::Canceled => StatusIcon::Icon(IconName::Circle, Color::Muted),
        ToolCallStatus::WaitingForConfirmation { .. } => StatusIcon::Icon(
            IconName::ToolHammer,
            Color::Muted,
        ),
    }
}

/// The elapsed time of the first terminal that runs long enough for it to be shown.
pub open spec fn first_long_elapsed(content: Seq<ToolCallContent>) -> Option<Seq<char>>
    decreases content.len(),
{
    if content.len() == 0 {
        None
    } else {
        match first_long_elapsed(content.drop_last()) {
            Some(elapsed) => Some(elapsed),
            None => match content.last() {
                ToolCallContent::Terminal(terminal) => if terminal.elapsed_ns
                    > terminal_card::ELAPSED_TIME_THRESHOLD {
                    Some(terminal.elapsed_text@)
                } else {
                    None
                },
                _ => None,
            },
        }
    }
}

/// The first terminal that has a view.
pub open spec fn first_terminal_view(content: Seq<ToolCallContent>) -> Option<u64>
    decreases content.len(),
{
    if content.len() == 0 {
        None
    } else {
        match first_terminal_view(content.drop_last()) {
            Some(id) => Some(id),
            None => match content.last() {
                ToolCallContent::Terminal(terminal) => if terminal.has_view {
                    Some(terminal.entity_id)
                } else {
                    None
                },
                _ => None,
            },
        }
    }
}

/// What the row of a background monitor shows.
pub open spec fn monitor_row_shows(
    row: BackgroundTaskRow<MonitorHeader>,
    monitor: ToolCall,
    index: nat,
    total_monitors: nat,
    is_expanded: bool,
    entry_index: Option<usize>,
) -> bool {
    let header = row.header;
    &&& header.disclosure_id@ == "bg_monitor_"@ + text::decimal(index)
    &&& header.is_expanded == is_expanded
    &&& header.status_icon == monitor_icon(monitor.status)
    &&& zed_todos::chip_shows(
        header.chip,
        monitor.risk.risk,
        monitor.risk.is_externally_destructive,
        LabelSize::XSmall,
    )
    &&& header.label@ == monitor.label@
    &&& text::optional_view(header.elapsed) == (match first_long_elapsed(monitor.content@) {
        Some(elapsed) => Some("("@ + elapsed + ")"@),
        None => None,
    })
    &&& header.has_bottom_border == (index + 1 < total_monitors)
    &&& row.body == (if !is_expanded {
        None
    } else {
        match (entry_index, first_terminal_view(monitor.content@)) {
            (Some(_), Some(id)) => Some(BackgroundTaskBody::Terminal(id)),
            _ => Some(BackgroundTaskBody::NoLiveOutput),
        }
    })
}

fn scan_terminals(content: &Vec<ToolCallContent>) -> (r: (Option<String>, Option<u64>))
    ensures
        text::optional_view(r.0) == first_long_elapsed(content@),
        r.1 == first_terminal_view(content@),
{
    let mut elapsed: Option<String> = None;
    let mut view: Option<u64> = None;
    let mut i: usize = 0;
    while i < content.len()
        invariant
            i <= content@.len(),
            text::optional_view(elapsed) == first_long_elapsed(content@.take(i as int)),
            view == first_terminal_view(content@.take(i as int)),
        decreases content@.len() - i,
    {
        assert(content@.take(i + 1).drop_last() == content@.take(i as int));
        if let ToolCallContent::Terminal(terminal) = &content[i] {
            if elapsed.is_none() && terminal.elapsed_ns
                > terminal_card::ELAPSED_TIME_THRESHOLD {
                elapsed = Some(terminal.elapsed_text.clone());
            }
            if view.is_none() && terminal.has_view {
                view = Some(terminal.entity_id);
            }
        }
        i = i + 1;
    }
    assert(content@.take(i as int) == content@);
    (elapsed, view)
}

/// The row of a background monitor. `entry_index` is the place of its entry.
pub fn render_background_monitor_row(
    monitor: &ToolCall,
    index: usize,
    total_monitors: usize,
    is_individually_expanded: bool,
    entry_index: Option<usize>,
) -> (r: BackgroundTaskRow<MonitorHeader>)
    ensures
        monitor_row_shows(
            r,
            *monitor,
            index as nat,
            total_monitors as nat,
            is_individually_expanded,
            entry_index,
        ),
{
    let status_icon = match &monitor.status {
        ToolCallStatus::InProgress => StatusIcon::Spinner,
        ToolCallStatus::Pending => StatusIcon::Spinner,
        ToolCallStatus::Completed => StatusIcon::Icon(IconName::Check, Color::Success),
        ToolCallStatus::Failed => StatusIcon::Icon(IconName::Close, Color::Error),
        ToolCallStatus::Rejected => StatusIcon::Icon(IconName::Close, Color::Error),
        ToolCallStatus::Canceled => StatusIcon::Icon(IconName::Circle, Color::Muted),
        ToolCallStatus::WaitingForConfirmation { .. } => StatusIcon::Icon(
            IconName::ToolHammer,
            Color::Muted,
        ),
    };
    let (elapsed, terminal_view) = scan_terminals(&monitor.content);
    let elapsed = match elapsed {
        Some(elapsed) => Some(text::concat3("(", elapsed.as_str(), ")")),
        None => None,
    };
    let body = if is_individually_expanded {
        match (entry_index, terminal_view) {
            (Some(_), Some(id)) => Some(BackgroundTaskBody::Terminal(id)),
            _ => Some(BackgroundTaskBody::NoLiveOutput),
        }
    } else {
        None
    };
    let header = MonitorHeader {
        disclosure_id: text::with_count("bg_monitor_", index),
        is_expanded: is_individually_expanded,
        status_icon,
        chip: zed_todos::render_risk_chip_with_tool(&monitor.risk, LabelSize::XSmall),
        label: monitor.label.clone(),
        elapsed,
        has_bottom_border: total_monitors > 0 && index < total_monitors - 1,
    };
    zed_todos::render_background_task_row(header, body)
}

/// The last entry that is a background monitor with this identifier.
pub open spec fn monitor_entry(entries: Seq<AgentThreadEntry>, id: Seq<char>) -> Option<usize>
    decreases entries.len(),
{
    if entries.len() == 0 {
        None
    } else {
        match entries.last().content {
            EntryContent::ToolCall(call) => if call.is_monitor && call.id.key() == id {
                Some((entries.len() - 1) as usize)
            } else {
                monitor_entry(entries.drop_last(), id)
            },
            _ => monitor_entry(entries.drop_last(), id),
        }
    }
}

fn find_monitor_entry(entries: &Vec<AgentThreadEntry>, id: &ToolCallId) -> (r: Option<usize>)
    ensures
        r == monitor_entry(entries@, id.key()),
{
    let mut found: Option<usize> = None;
    let mut i: usize = 0;
    while i < entries.len()
        invariant
            i <= entries@.len(),
            found == monitor_entry(entries@.take(i as int), id.key()),
        decreases entries@.len() - i,
    {
        assert(entries@.take(i + 1).drop_last() == entries@.take(i as int));
        if let EntryContent::ToolCall(call) = &entries[i].content {
            if call.is_monitor && call.id.same_key(id) {
                found = Some(i);
            }
        }
        i = i + 1;
    }
    assert(entries@.take(i as int) == entries@);
    found
}

/// What the rows of the background monitors show.
pub open spec fn monitor_rows_show(
    rows: Seq<BackgroundTaskRow<MonitorHeader>>,
    view: ThreadView,
    monitors: Seq<ToolCall>,
    entries: Seq<AgentThreadEntry>,
) -> bool {
    &&& rows.len() == monitors.len()
    &&& forall|i: int|
        #![trigger rows[i]]
        0 <= i < rows.len() ==> monitor_row_shows(
            rows[i],
            monitors[i],
            i as nat,
            monitors.len(),
            view.zed_todos.state.expanded_background_monitors@.contains(monitors[i].id.key()),
            monitor_entry(entries, monitors[i].id.key()),
        )
}

/// What the section of the pending approvals shows.
pub open spec fn approvals_section_shows(
    section: ApprovalsSection,
    calls: Seq<ToolCall>,
    expanded: bool,
) -> bool {
    &&& section.id@ == "approvals_summary"@
    &&& section.is_expanded == expanded
    &&& section.label@ == zed_todos::counted("Agent Approvals"@, calls.len())
    &&& section.rows is Some <==> expanded
    &&& section.rows matches Some(rows) ==> rows@.len() == calls.len() && forall|i: int|
        0 <= i < rows@.len() ==> zed_todos::approval_row_shows(
            #[trigger] rows@[i],
            i as usize,
            calls[i],
        )
}

/// The todos surface; a section with nothing to show is missing.
pub struct TodosSurface {
    pub approvals: Option<ApprovalsSection>,
    pub has_divider_below_approvals: bool,
    pub plan: Option<PlanSummary>,
    pub plan_rows: Option<Vec<PlanEntryRow>>,
    pub memory: Option<MemorySummary>,
    /// What is remembered, and what a middle click on it adds to the prompt.
    pub memory_items: Option<(MemoryItems, String)>,
    pub background: Option<BackgroundSummary>,
    pub background_rows: Option<Vec<BackgroundTaskRow<MonitorHeader>>>,
}

/// What the todos surface depends on besides the view and the thread.
pub struct TodosContext<'a> {
    /// Whether the native thread uses the build profile.
    pub native_is_grok_build_profile: bool,
    pub memory: &'a GrokMemoryArtifacts,
    pub plan_stats: PlanStats<'a>,
    /// Whether the native thread has a proposed plan.
    pub native_plan_is_proposed: bool,
    /// The risk of accepting a proposed plan.
    pub plan_risk: &'a ToolRisk,
}

/// What the todos surface shows.
pub open spec fn todos_surface_shows(
    surface: TodosSurface,
    view: ThreadView,
    thread: AcpThread,
    context: TodosContext,
) -> bool {
    let state = view.zed_todos.state;
    let approvals = zed_todos::waiting_calls(thread.entries@);
    let monitors = zed_todos::monitor_calls(thread.entries@);
    let has_plan = thread.plan.entries@.len() > 0;
    let is_grok = thread_view::is_grok(view.agent_id@, context.native_is_grok_build_profile);
    &&& surface.approvals is Some <==> approvals.len() > 0
    &&& surface.approvals matches Some(section) ==> approvals_section_shows(
        section,
        approvals,
        state.approvals_expanded,
    )
    &&& surface.has_divider_below_approvals == (approvals.len() > 0 && state.approvals_expanded && (
    has_plan || monitors.len() > 0))
    &&& surface.plan is Some <==> has_plan
    &&& surface.plan matches Some(summary) ==> plan_summary_shows(
        summary,
        view,
        thread.plan,
        context.plan_stats,
        thread.plan.is_proposed || context.native_plan_is_proposed,
        *context.plan_risk,
    )
    &&& surface.plan_rows is Some <==> has_plan && state.plan_expanded
    &&& surface.plan_rows matches Some(rows) ==> zed_todos::plan_rows_show(
        rows@,
        thread.plan.entries@,
    )
    &&& surface.memory is Some <==> is_grok
    &&& surface.memory matches Some(summary) ==> memory_summary_shows(
        summary,
        view,
        *context.memory,
    )
    &&& surface.memory_items is Some <==> is_grok && state.grok_memory_expanded
    &&& surface.memory_items matches Some((items, prompt)) ==> zed_todos::memory_shows(
        items,
        *context.memory,
    ) && prompt@ == memory_prompt(*context.memory)
    &&& surface.background is Some <==> monitors.len() > 0
    &&& surface.background matches Some(summary) ==> background_summary_shows(
        summary,
        view,
        monitors.len(),
    )
    &&& surface.background_rows is Some <==> monitors.len() > 0 && state.background_tasks_expanded
    &&& surface.background_rows matches Some(rows) ==> monitor_rows_show(
        rows@,
        view,
        monitors,
        thread.entries@,
    )
}

impl ThreadView {
    /// The heading of a plan.
    pub fn render_plan_summary(
        &self,
        plan: &Plan,
        stats: &PlanStats,
        native_plan_is_proposed: bool,
        plan_risk: &ToolRisk,
    ) -> (r: PlanSummary)
        ensures
            plan_summary_shows(
                r,
                *self,
                *plan,
                *stats,
                plan.is_proposed || native_plan_is_proposed,
                *plan_risk,
            ),
    {
        let is_expanded = self.zed_todos.state.plan_expanded;
        let is_proposed = plan.is_proposed || native_plan_is_proposed;
        let current: Option<&str> = if is_expanded {
            None
        } else {
            stats.in_progress
        };
        let title = match current {
            Some(step) => {
                let left = if stats.pending > 0 {
                    Some(text::concat2(text::number(stats.pending as u64).as_str(), " left"))
                } else {
                    None
                };
                PlanTitle::Current { content: step.to_owned(), left }
            },
            None => {
                let total = plan.entries.len() as u64;
                let completed = stats.completed as u64;
                let status = if total == 0 {
                    String::new()
                } else if completed == total {
                    "All Done".to_owned()
                } else {
                    text::concat3(
                        text::number(completed).as_str(),
                        "/",
                        text::number(total).as_str(),
                    )
                };
                let risk_color = match plan_risk.risk {
                    ApprovalRisk::ReadOnly => Color::Success,
                    ApprovalRisk::PotentiallyDestructive => Color::Warning,
                };
                let (label, color, risk): (&'static str, Color, Option<(String, Color)>) =
                    if is_proposed {
                    (
                        "Plan proposed",
                        Color::Accent,
                        Some((plan_risk.display_label.clone(), risk_color)),
                    )
                } else {
                    ("Plan", Color::Muted, None)
                };
                assert(status@ =~= plan_status(plan.entries@.len(), stats.completed as nat));
                PlanTitle::Overview { label, color, risk, status }
            },
        };
        let accept = if is_proposed {
            Some(ZedTodosComponent::build_plan_accept_button_with_tool(plan_risk))
        } else {
            None
        };
        PlanSummary { is_expanded, title, accept }
    }

    /// The heading of the memory.
    pub fn render_grok_memory_summary(&self, artifacts: &GrokMemoryArtifacts) -> (r: MemorySummary)
        ensures
            memory_summary_shows(r, *self, *artifacts),
    {
        MemorySummary {
            is_expanded: self.zed_todos.state.grok_memory_expanded,
            label: if artifacts.has_workspace_memory || artifacts.has_global_memory {
                "Grok Memory: present (RO)"
            } else {
                "Grok Memory: disabled (RO)"
            },
        }
    }

    /// The heading of the background tasks.
    pub fn render_background_tasks_summary(&self, count: usize) -> (r: BackgroundSummary)
        ensures
            background_summary_shows(r, *self, count as nat),
    {
        let is_expanded = self.zed_todos.state.background_tasks_expanded;
        let label = if is_expanded || count == 0 {
            "Background Tasks".to_owned()
        } else {
            text::bracketed("Background Tasks", text::count(count).as_str())
        };
        BackgroundSummary { is_expanded, label }
    }

    /// The rows of these monitors. A monitor whose entry is in the thread can show its output.
    pub fn render_background_task_items(&self, thread: &AcpThread, monitors: &Vec<&ToolCall>) -> (r:
        Vec<BackgroundTaskRow<MonitorHeader>>)
        ensures
            monitor_rows_show(r@, *self, zed_todos::pointed_at(monitors@), thread.entries@),
    {
        let total = monitors.len();
        let ghost calls = zed_todos::pointed_at(monitors@);
        let mut rows: Vec<BackgroundTaskRow<MonitorHeader>> = Vec::new();
        let mut i: usize = 0;
        while i < total
            invariant
                i <= total == monitors@.len(),
                rows@.len() == i,
                calls == zed_todos::pointed_at(monitors@),
                forall|j: int|
                    #![trigger rows@[j]]
                    0 <= j < i ==> monitor_row_shows(
                        rows@[j],
                        calls[j],
                        j as nat,
                        calls.len(),
                        self.zed_todos.state.expanded_background_monitors@.contains(
                            calls[j].id.key(),
                        ),
                        monitor_entry(thread.entries@, calls[j].id.key()),
                    ),
            decreases total - i,
        {
            let monitor = monitors[i];
            let is_expanded = self.zed_todos.is_background_monitor_expanded(&monitor.id);
            let entry_index = find_monitor_entry(&thread.entries, &monitor.id);
            rows.push(
                render_background_monitor_row(monitor, i, total, is_expanded, entry_index),
            );
            i = i + 1;
        }
        rows
    }

    /// The todos surface.
    pub fn render_zed_todos_surface(&self, thread: &AcpThread, context: &TodosContext) -> (r:
        TodosSurface)
        ensures
            todos_surface_shows(r, *self, *thread, *context),
    {
        let state = &self.zed_todos.state;
        let pending_approvals = zed_todos::collect_pending_approval_tool_calls(thread);
        let monitors = zed_todos::collect_background_monitor_tool_calls(thread);
        assert(zed_todos::pointed_at(monitors@) =~= zed_todos::monitor_calls(thread.entries@));
        let has_approvals = pending_approvals.len() > 0;
        let has_plan = thread.plan.entries.len() > 0;
        let has_background_tasks = monitors.len() > 0;
        let approvals = if has_approvals {
            Some(
                zed_todos::render_agent_approvals_section(
                    &pending_approvals,
                    state.approvals_expanded,
                ),
            )
        } else {
            None
        };
        let plan = if has_plan {
            Some(
                self.render_plan_summary(
                    &thread.plan,
                    &context.plan_stats,
                    context.native_plan_is_proposed,
                    context.plan_risk,
                ),
            )
        } else {
            None
        };
        let plan_rows = if has_plan && state.plan_expanded {
            Some(zed_todos::render_plan_entries(&thread.plan))
        } else {
            None
        };
        let is_grok = self.is_grok_build_profile(context.native_is_grok_build_profile);
        let memory = if is_grok {
            Some(self.render_grok_memory_summary(context.memory))
        } else {
            None
        };
        let memory_items = if is_grok && state.grok_memory_expanded {
            Some((zed_todos::render_grok_memory_items(context.memory), memory_text(context.memory)))
        } else {
            None
        };
        let background = if has_background_tasks {
            Some(self.render_background_tasks_summary(monitors.len()))
        } else {
            None
        };
        let background_rows = if has_background_tasks && state.background_tasks_expanded {
            Some(self.render_background_task_items(thread, &monitors))
        } else {
            None
        };
        TodosSurface {
            approvals,
            has_divider_below_approvals: has_approvals && state.approvals_expanded && (has_plan
                || has_background_tasks),
            plan,
            plan_rows,
            memory,
            memory_items,
            background,
            background_rows,
        }
    }
}

/// While the background tasks are collapsed, no row of a monitor is made; and a monitor that is
/// not expanded has no body.
pub proof fn collapsed_monitors_cost_nothing(
    surface: TodosSurface,
    view: ThreadView,
    thread: AcpThread,
    context: TodosContext,
    i: int,
)
    requires
        todos_surface_shows(surface, view, thread, context),
    ensures
        !view.zed_todos.state.background_tasks_expanded ==> surface.background_rows is None,
        surface.background_rows matches Some(rows) ==> 0 <= i < rows@.len() && !(
        view.zed_todos.state.expanded_background_monitors@.contains(
            zed_todos::monitor_calls(thread.entries@)[i].id.key(),
        )) ==> rows@[i].body is None,
{
    if let Some(rows) = surface.background_rows {
        if 0 <= i < rows@.len() {
            let row = rows@[i];
        }
    }
}

/// A plan says how many of its steps are done, or that all are; a plan without steps says
/// nothing.
pub proof fn plans_say_how_far_they_have_come(total: nat, completed: nat)
    ensures
        total == 0 ==> plan_status(total, completed).len() == 0,
        total > 0 && completed == total ==> plan_status(total, completed) == "All Done"@,
        total > 0 && completed != total ==> plan_status(total, completed) == text::decimal(
            completed,
        ) + seq!['/'] + text::decimal(total),
{
    reveal_strlit("/");
    assert("/"@ =~= seq!['/']);
}

/// While a plan is collapsed, its heading shows the step that is under way and how many are left.
/// Else it shows the plan as a whole; a proposed one with its risk, and it alone can be accepted.
pub proof fn headings_show_the_step_or_the_plan(
    summary: PlanSummary,
    view: ThreadView,
    plan: Plan,
    stats: PlanStats,
    is_proposed: bool,
    plan_risk: ToolRisk,
)
    requires
        plan_summary_shows(summary, view, plan, stats, is_proposed, plan_risk),
    ensures
        summary.is_expanded == view.zed_todos.state.plan_expanded,
        summary.title is Current <==> !summary.is_expanded && stats.in_progress is Some,
        match summary.title {
            PlanTitle::Current { content, left } => {
                &&& content@ == stats.in_progress->0@
                &&& left is Some <==> stats.pending != 0
                &&& left is Some ==> left->0@ == text::decimal(stats.pending as nat) + " left"@
            },
            PlanTitle::Overview { label, color, risk, status } => {
                &&& is_proposed ==> label@ == "Plan proposed"@ && color == Color::Accent
                &&& !is_proposed ==> label@ == "Plan"@ && color == Color::Muted
                &&& risk is Some <==> is_proposed
                &&& risk matches Some((words, shade)) ==> words@ == plan_risk.display_label@ && (shade
                    == Color::Warning <==> plan_risk.risk == ApprovalRisk::PotentiallyDestructive)
                &&& status@ == plan_status(plan.entries@.len(), stats.completed as nat)
            },
        },
        summary.accept is Some <==> is_proposed,
        summary.accept matches Some(button) ==> button.tooltip@ == "Accept proposed plan"@ + " ("@
            + plan_risk.display_label@ + ")"@,
{
}

/// The heading of the memory says whether there is any.
pub proof fn the_memory_says_whether_it_is_there(
    summary: MemorySummary,
    view: ThreadView,
    artifacts: GrokMemoryArtifacts,
)
    requires
        memory_summary_shows(summary, view, artifacts),
    ensures
        summary.is_expanded == view.zed_todos.state.grok_memory_expanded,
        artifacts.has_workspace_memory || artifacts.has_global_memory ==> summary.label@
            == "Grok Memory: present (RO)"@,
        !artifacts.has_workspace_memory && !artifacts.has_global_memory ==> summary.label@
            == "Grok Memory: disabled (RO)"@,
{
}

/// The contents of facts come one by one; a fact without one adds nothing.
pub proof fn contents_of_facts_come_one_by_one(
    first: Seq<GrokFact>,
    second: Seq<GrokFact>,
    fact: GrokFact,
)
    ensures
        fact_contents(first + second) == fact_contents(first) + fact_contents(second),
        fact.content matches Some(content) ==> fact_contents(seq![fact]) == seq![content@],
        fact.content is None ==> fact_contents(seq![fact]).len() == 0,
    decreases second.len(),
{
    reveal_with_fuel(fact_contents, 3);
    assert(seq![fact].drop_last() =~= seq![]);
    if let Some(content) = fact.content {
        assert(Seq::<Seq<char>>::empty().push(content@) =~= seq![content@]);
    }
    if second.len() > 0 {
        contents_of_facts_come_one_by_one(first, second.drop_last(), fact);
        assert((first + second).drop_last() =~= first + second.drop_last());
        assert((first + second).last() == second.last());
        assert(fact_contents(first + second) =~= fact_contents(first) + fact_contents(second));
    } else {
        assert(first + second =~= first);
        assert(fact_contents(first) + fact_contents(second) =~= fact_contents(first));
    }
}

/// The memory goes into the prompt as its preview; without one, as its facts line by line;
/// without those, as a fixed text.
pub proof fn the_memory_goes_into_the_prompt(artifacts: GrokMemoryArtifacts)
    ensures
        artifacts.workspace_memory_preview matches Some(preview) ==> memory_prompt(artifacts)
            == preview@,
        artifacts.workspace_memory_preview is None && artifacts.facts_from_db@.len() > 0
            ==> memory_prompt(artifacts) == text::joined(
            fact_contents(artifacts.facts_from_db@),
            seq!['\n'],
        ),
        artifacts.workspace_memory_preview is None && artifacts.facts_from_db@.len() == 0
            ==> memory_prompt(artifacts) == "Grok Memory facts (workspace + global)"@,
{
    reveal_strlit("\n");
    assert("\n"@ =~= seq!['\n']);
}

/// The heading of the background tasks counts them while they are collapsed.
pub proof fn collapsed_tasks_are_counted(
    summary: BackgroundSummary,
    view: ThreadView,
    count: nat,
)
    requires
        background_summary_shows(summary, view, count),
    ensures
        summary.is_expanded == view.zed_todos.state.background_tasks_expanded,
        summary.is_expanded || count == 0 ==> summary.label@ == "Background Tasks"@,
        !summary.is_expanded && count > 0 ==> summary.label@ == "Background Tasks"@ + " ("@
            + text::decimal(count) + ")"@,
{
}

/// A monitor that is under way spins; one that is over shows how it ended.
pub proof fn monitors_show_how_they_stand(status: ToolCallStatus)
    ensures
        monitor_icon(status) is Spinner <==> status is Pending || status is InProgress,
        monitor_icon(status) == StatusIcon::Icon(IconName::Check, Color::Success) <==> status
            is Completed,
        monitor_icon(status) == StatusIcon::Icon(IconName::Close, Color::Error) <==> status
            is Failed || status is Rejected,
        monitor_icon(status) == StatusIcon::Icon(IconName::Circle, Color::Muted) <==> status
            is Canceled,
        monitor_icon(status) == StatusIcon::Icon(IconName::ToolHammer, Color::Muted) <==> status
            is WaitingForConfirmation,
{
}

/// The time of a monitor is that of its first terminal that has run for more than ten seconds,
/// and its view that of its first terminal that has one.
pub proof fn the_first_terminal_that_fits_is_taken(
    first: Seq<ToolCallContent>,
    second: Seq<ToolCallContent>,
    content: ToolCallContent,
)
    ensures
        first_long_elapsed(first + second) == (match first_long_elapsed(first) {
            Some(elapsed) => Some(elapsed),
            None => first_long_elapsed(second),
        }),
        first_terminal_view(first + second) == (match first_terminal_view(first) {
            Some(id) => Some(id),
            None => first_terminal_view(second),
        }),
        match content {
            ToolCallContent::Terminal(terminal) => {
                &&& terminal.elapsed_ns > 10_000_000_000 ==> first_long_elapsed(seq![content])
                    == Some(terminal.elapsed_text@)
                &&& terminal.elapsed_ns <= 10_000_000_000 ==> first_long_elapsed(seq![content])
                    is None
                &&& terminal.has_view ==> first_terminal_view(seq![content]) == Some(
                    terminal.entity_id,
                )
                &&& !terminal.has_view ==> first_terminal_view(seq![content]) is None
            },
            _ => first_long_elapsed(seq![content]) is None && first_terminal_view(seq![content])
                is None,
        },
    decreases second.len(),
{
    reveal_with_fuel(first_long_elapsed, 3);
    reveal_with_fuel(first_terminal_view, 3);
    assert(seq![content].drop_last() =~= seq![]);
    if second.len() > 0 {
        the_first_terminal_that_fits_is_taken(first, second.drop_last(), content);
        assert((first + second).drop_last() =~= first + second.drop_last());
        assert((first + second).last() == second.last());
    } else {
        assert(first + second =~= first);
    }
}

/// The rows of the monitors show them in order, each with its state, its risk and its label; an
/// expanded one shows its terminal, or that there is no output.
pub proof fn monitors_have_their_rows(
    rows: Seq<BackgroundTaskRow<MonitorHeader>>,
    view: ThreadView,
    monitors: Seq<ToolCall>,
    entries: Seq<AgentThreadEntry>,
    i: int,
)
    requires
        monitor_rows_show(rows, view, monitors, entries),
        0 <= i < monitors.len(),
    ensures
        rows.len() == monitors.len(),
        rows[i].header.label@ == monitors[i].label@,
        rows[i].header.is_expanded <==> view.zed_todos.state.expanded_background_monitors@.contains(
            monitors[i].id.value@,
        ),
        rows[i].header.status_icon is Spinner <==> monitors[i].status is Pending
            || monitors[i].status is InProgress,
        rows[i].header.chip.icon is Some <==> monitors[i].risk.is_externally_destructive,
        rows[i].header.has_bottom_border <==> i + 1 < monitors.len(),
        rows[i].header.disclosure_id@ == "bg_monitor_"@ + text::decimal(i as nat),
        rows[i].header.elapsed is Some <==> first_long_elapsed(monitors[i].content@) is Some,
        rows[i].header.elapsed is Some ==> rows[i].header.elapsed->0@ == seq!['(']
            + first_long_elapsed(monitors[i].content@)->0 + seq![')'],
        rows[i].body is Some <==> rows[i].header.is_expanded,
        rows[i].body matches Some(BackgroundTaskBody::Terminal(id)) ==> first_terminal_view(
            monitors[i].content@,
        ) == Some(id),
        rows[i].header.is_expanded && first_terminal_view(monitors[i].content@) is Some
            && monitor_entry(entries, monitors[i].id.value@) is Some ==> (rows[i].body matches Some(
            BackgroundTaskBody::Terminal(_),
        )),
{
    reveal_strlit("(");
    reveal_strlit(")");
    assert("("@ =~= seq!['(']);
    assert(")"@ =~= seq![')']);
    assert(monitor_row_shows(
        rows[i],
        monitors[i],
        i as nat,
        monitors.len(),
        view.zed_todos.state.expanded_background_monitors@.contains(monitors[i].id.key()),
        monitor_entry(entries, monitors[i].id.key()),
    ));
}

/// The entry of a monitor is the last one that is a monitor with its identifier.
pub proof fn the_last_entry_of_a_monitor_is_found(entries: Seq<AgentThreadEntry>, id: Seq<char>)
    requires
        entries.len() <= usize::MAX,
    ensures
        match monitor_entry(entries, id) {
            Some(found) => {
                &&& found < entries.len()
                &&& entries[found as int].content is ToolCall
                &&& entries[found as int].content->ToolCall_0.is_monitor
                &&& entries[found as int].content->ToolCall_0.id.value@ == id
                &&& forall|i: int|
                    found < i < entries.len() ==> !((#[trigger] entries[i]).content is ToolCall
                        && entries[i].content->ToolCall_0.is_monitor
                        && entries[i].content->ToolCall_0.id.value@ == id)
            },
            None => forall|i: int|
                0 <= i < entries.len() ==> !((#[trigger] entries[i]).content is ToolCall
                    && entries[i].content->ToolCall_0.is_monitor
                    && entries[i].content->ToolCall_0.id.value@ == id),
        },
    decreases entries.len(),
{
    if entries.len() > 0 {
        let before = entries.drop_last();
        the_last_entry_of_a_monitor_is_found(before, id);
        assert forall|i: int| 0 <= i < before.len() implies before[i] == entries[i] by {}
        let n = before.len() as int;
        if !(entries[n].content is ToolCall && entries[n].content->ToolCall_0.is_monitor
            && entries[n].content->ToolCall_0.id.value@ == id) {
            match monitor_entry(before, id) {
                Some(found) => {
                    assert(before[found as int] == entries[found as int]);
                    assert forall|i: int| found < i < entries.len() implies !((
                    #[trigger] entries[i]).content is ToolCall
                        && entries[i].content->ToolCall_0.is_monitor
                        && entries[i].content->ToolCall_0.id.value@ == id) by {
                        if i < n {
                            assert(before[i] == entries[i]);
                        }
                    }
                },
                None => {
                    assert forall|i: int| 0 <= i < entries.len() implies !((
                    #[trigger] entries[i]).content is ToolCall
                        && entries[i].content->ToolCall_0.is_monitor
                        && entries[i].content->ToolCall_0.id.value@ == id) by {
                        if i < n {
                            assert(before[i] == entries[i]);
                        }
                    }
                },
            }
        }
    }
}

/// The section of the approvals counts them, and lists them with their buttons while it is
/// expanded.
pub proof fn approvals_are_counted_and_listed(
    section: ApprovalsSection,
    calls: Seq<ToolCall>,
    expanded: bool,
    i: int,
)
    requires
        approvals_section_shows(section, calls, expanded),
        calls.len() <= usize::MAX,
    ensures
        section.is_expanded == expanded,
        section.rows is Some <==> expanded,
        section.label@ == "Agent Approvals"@ + " ("@ + text::decimal(calls.len()) + ")"@,
        section.rows matches Some(rows) ==> rows@.len() == calls.len() && (0 <= i < calls.len()
            ==> rows@[i].label@ == calls[i].label@ && zed_todos::approval_row_shows(
            rows@[i],
            i as usize,
            calls[i],
        )),
{
    if let Some(rows) = section.rows {
        if 0 <= i < calls.len() {
            assert(zed_todos::approval_row_shows(rows@[i], i as usize, calls[i]));
        }
    }
}

/// The surface has a section for the approvals, the plan and the background tasks where there are
/// any, and for the memory of the build agent. Each is written out while it is expanded.
pub proof fn the_surface_has_its_sections(
    surface: TodosSurface,
    view: ThreadView,
    thread: AcpThread,
    context: TodosContext,
)
    requires
        todos_surface_shows(surface, view, thread, context),
    ensures
        surface.approvals is Some <==> exists|i: int|
            0 <= i < thread.entries@.len() && (#[trigger] thread.entries@[i]).content is ToolCall
                && thread.entries@[i].content->ToolCall_0.status is WaitingForConfirmation,
        surface.background is Some <==> exists|i: int|
            0 <= i < thread.entries@.len() && (#[trigger] thread.entries@[i]).content is ToolCall
                && thread.entries@[i].content->ToolCall_0.is_monitor,
        surface.plan is Some <==> thread.plan.entries@.len() > 0,
        surface.memory is Some <==> view.agent_id@ == "grok"@
            || context.native_is_grok_build_profile,
        surface.approvals matches Some(section) ==> section.is_expanded
            == view.zed_todos.state.approvals_expanded,
        surface.plan_rows is Some <==> surface.plan is Some && view.zed_todos.state.plan_expanded,
        surface.plan_rows matches Some(rows) ==> rows@.len() == thread.plan.entries@.len(),
        surface.memory_items is Some <==> surface.memory is Some
            && view.zed_todos.state.grok_memory_expanded,
        surface.memory_items matches Some((items, prompt)) ==> items.preview
            == context.memory.workspace_memory_preview && prompt@ == memory_prompt(*context.memory),
        surface.background_rows is Some <==> surface.background is Some
            && view.zed_todos.state.background_tasks_expanded,
        surface.plan matches Some(summary) ==> (summary.accept is Some <==> thread.plan.is_proposed
            || context.native_plan_is_proposed),
        surface.has_divider_below_approvals <==> surface.approvals is Some
            && view.zed_todos.state.approvals_expanded && (surface.plan is Some
            || surface.background is Some),
{
    let entries = thread.entries@;
    zed_todos::approvals_are_the_waiting_entries(entries);
    zed_todos::monitors_are_the_monitor_entries(entries);
    if surface.approvals is Some {
        let i = choose|i: int|
            0 <= i < entries.len() && crate::model::is_waiting_call(#[trigger] entries[i]);
        assert(entries[i].content is ToolCall);
    }
    if surface.background is Some {
        let i = choose|i: int|
            0 <= i < entries.len() && crate::model::is_monitor_call(#[trigger] entries[i]);
        assert(entries[i].content is ToolCall);
    }
    if exists|i: int|
        0 <= i < entries.len() && (#[trigger] entries[i]).content is ToolCall
            && entries[i].content->ToolCall_0.status is WaitingForConfirmation {
        let i = choose|i: int|
            0 <= i < entries.len() && (#[trigger] entries[i]).content is ToolCall
                && entries[i].content->ToolCall_0.status is WaitingForConfirmation;
        assert(crate::model::is_waiting_call(entries[i]));
    }
    if exists|i: int|
        0 <= i < entries.len() && (#[trigger] entries[i]).content is ToolCall
            && entries[i].content->ToolCall_0.is_monitor {
        let i = choose|i: int|
            0 <= i < entries.len() && (#[trigger] entries[i]).content is ToolCall
                && entries[i].content->ToolCall_0.is_monitor;
        assert(crate::model::is_monitor_call(entries[i]));
    }
}

/// The section of the approvals is found by its identifier.
pub proof fn the_section_of_the_approvals_is_found(
    section: ApprovalsSection,
    calls: Seq<ToolCall>,
    expanded: bool,
)
    requires
        approvals_section_shows(section, calls, expanded),
    ensures
        section.id@ == "approvals_summary"@,
{
}

/// The sections show the calls, the plan and the memory that they are for.
pub proof fn sections_show_what_they_are_for(
    surface: TodosSurface,
    view: ThreadView,
    thread: AcpThread,
    context: TodosContext,
)
    requires
        todos_surface_shows(surface, view, thread, context),
    ensures
        surface.approvals matches Some(section) ==> approvals_section_shows(
            section,
            zed_todos::waiting_calls(thread.entries@),
            view.zed_todos.state.approvals_expanded,
        ),
        surface.plan matches Some(summary) ==> plan_summary_shows(
            summary,
            view,
            thread.plan,
            context.plan_stats,
            thread.plan.is_proposed || context.native_plan_is_proposed,
            *context.plan_risk,
        ),
        surface.plan_rows matches Some(rows) ==> zed_todos::plan_rows_show(
            rows@,
            thread.plan.entries@,
        ),
        surface.memory matches Some(summary) ==> memory_summary_shows(
            summary,
            view,
            *context.memory,
        ),
        surface.memory_items matches Some((items, _)) ==> zed_todos::memory_shows(
            items,
            *context.memory,
        ),
        surface.background matches Some(summary) ==> background_summary_shows(
            summary,
            view,
            zed_todos::monitor_calls(thread.entries@).len(),
        ),
        surface.background_rows matches Some(rows) ==> monitor_rows_show(
            rows@,
            view,
            zed_todos::monitor_calls(thread.entries@),
            thread.entries@,
        ),
{
}

/// The chips in the rows of the monitors are small.
pub proof fn chips_of_monitors_are_small(
    rows: Seq<BackgroundTaskRow<MonitorHeader>>,
    view: ThreadView,
    monitors: Seq<ToolCall>,
    entries: Seq<AgentThreadEntry>,
    i: int,
)
    requires
        monitor_rows_show(rows, view, monitors, entries),
        0 <= i < monitors.len(),
    ensures
        rows[i].header.chip.label_size == LabelSize::XSmall,
{
    assert(monitor_row_shows(
        rows[i],
        monitors[i],
        i as nat,
        monitors.len(),
        view.zed_todos.state.expanded_background_monitors@.contains(monitors[i].id.key()),
        monitor_entry(entries, monitors[i].id.key()),
    ));
}

} // verus!
