//! The todos surface as a panel of its own.

use crate::model::{AcpThread, Color, ToolCall};
use crate::usage;
use crate::zed_todos::{CategorizedSurface, GrokMemoryArtifacts, ZedTodosComponent};
use crate::zed_todos;
use vstd::prelude::*;
use vstd::string::*;

verus! {

/// A panel that shows the todos of a thread, with a state of its own.
pub struct ZedTodosDockPrototype {
    pub zed_todos: ZedTodosComponent,
    /// The session of the thread that the panel shows.
    pub thread: String,
    /// The number of what the ring showed last.
    pub last_ring_bucket: Option<u32>,
}

/// The panel as it is drawn.
pub struct DockView {
    pub title: &'static str,
    pub ring_caption: &'static str,
    pub ring_bucket: u32,
    pub ring_status: (String, Color),
    pub usage_label: Option<(String, Color)>,
    pub surface: CategorizedSurface,
}

/// What the panel shows.
pub enum DockContent {
    /// The thread is gone.
    NoThread(&'static str),
    Surface(DockView),
}

/// What the panel shows of a thread, `percent` of whose context is used.
pub open spec fn dock_shows(
    shown: DockView,
    dock: ZedTodosDockPrototype,
    thread: AcpThread,
    memory: GrokMemoryArtifacts,
    percent: u32,
) -> bool {
    let counted = usage::counted_percent(thread.token_usage, percent);
    &&& shown.title@ == "Grok Plan, Approvals & Tasks"@
    &&& shown.ring_caption@ == "Context"@
    &&& shown.ring_bucket == usage::bucket(
        usage::zone(counted),
        thread.active_subagent_count as nat,
        thread.has_outstanding_todos,
    )
    &&& (shown.ring_status.0@, shown.ring_status.1) == usage::status_label(
        thread.active_subagent_count as nat,
        thread.has_outstanding_todos,
        counted,
    )
    &&& shown.usage_label is Some <==> (thread.token_usage matches Some(usage) && usage.max_tokens
        > 0)
    &&& shown.usage_label matches Some((label, color)) ==> (label@, color) == usage::percent_label(
        percent,
    )
    &&& exists|approvals: Seq<&ToolCall>, monitors: Seq<&ToolCall>|
        #![trigger zed_todos::refer_to(approvals, zed_todos::waiting_calls(thread.entries@)), zed_todos::refer_to(monitors, zed_todos::monitor_calls(thread.entries@))]
        zed_todos::refer_to(approvals, zed_todos::waiting_calls(thread.entries@))
            && zed_todos::refer_to(monitors, zed_todos::monitor_calls(thread.entries@))
            && zed_todos::surface_shows(
            shown.surface,
            approvals,
            thread.plan,
            monitors,
            memory,
            dock.zed_todos.state,
        )
}

impl ZedTodosDockPrototype {
    /// A panel for the thread of this session.
    pub fn new(thread: String) -> (r: Self)
        ensures
            r.thread == thread,
            r.last_ring_bucket is None,
            !r.zed_todos.state.approvals_expanded,
            !r.zed_todos.state.plan_expanded,
            !r.zed_todos.state.background_tasks_expanded,
            r.zed_todos.state.grok_memory_expanded,
            r.zed_todos.state.expanded_background_monitors@ == Set::<Seq<char>>::empty(),
    {
        ZedTodosDockPrototype {
            zed_todos: ZedTodosComponent::new(),
            thread,
            last_ring_bucket: None,
        }
    }

    /// A panel for a thread.
    pub fn new_for_thread(thread: &AcpThread) -> (r: Self)
        ensures
            r.thread@ == thread.session_id@,
            r.last_ring_bucket is None,
            !r.zed_todos.state.approvals_expanded,
            !r.zed_todos.state.plan_expanded,
            !r.zed_todos.state.background_tasks_expanded,
            r.zed_todos.state.grok_memory_expanded,
            r.zed_todos.state.expanded_background_monitors@ == Set::<Seq<char>>::empty(),
    {
        Self::new(thread.session_id.clone())
    }

    /// Expands all sections.
    pub fn prepare_for_full_agent_mode(&mut self)
        ensures
            final(self).zed_todos.state.all_expanded(),
            final(self).zed_todos.state.expanded_background_monitors@ == old(
                self,
            ).zed_todos.state.expanded_background_monitors@,
            final(self).thread == old(self).thread,
            final(self).last_ring_bucket == old(self).last_ring_bucket,
    {
        self.zed_todos.state.expand_all();
    }

    /// The panel as it is drawn, for a thread `percent` of whose context is used. The panel
    /// remembers what the ring shows.
    pub fn render(
        &mut self,
        thread: Option<&AcpThread>,
        memory: &GrokMemoryArtifacts,
        percent: u32,
    ) -> (r: DockContent)
        requires
            thread matches Some(thread) ==> usage::has_bucket(
                thread.active_subagent_count as nat,
            ),
        ensures
            final(self).zed_todos == old(self).zed_todos,
            final(self).thread == old(self).thread,
            match (r, thread) {
                (DockContent::NoThread(note), None) => note@ == "No active thread for ZT-1 surface"@
                    && final(self).last_ring_bucket == old(self).last_ring_bucket,
                (DockContent::Surface(shown), Some(thread)) => dock_shows(
                    shown,
                    *old(self),
                    *thread,
                    *memory,
                    percent,
                ) && final(self).last_ring_bucket == Some(shown.ring_bucket),
                _ => false,
            },
    {
        let thread = match thread {
            Some(thread) => thread,
            None => {
                return DockContent::NoThread("No active thread for ZT-1 surface");
            },
        };
        let ring_bucket = usage::ring_visual_bucket(
            thread.token_usage.as_ref(),
            percent,
            thread.active_subagent_count,
            thread.has_outstanding_todos,
        );
        self.last_ring_bucket = Some(ring_bucket);
        let ring_status = usage::ring_status_label(
            thread.active_subagent_count,
            thread.has_outstanding_todos,
            thread.token_usage.as_ref(),
            percent,
        );
        let usage_label = match &thread.token_usage {
            Some(usage) => usage::usage_imminent_label(usage, percent),
            None => None,
        };
        let pending_approvals = zed_todos::collect_pending_approval_tool_calls(thread);
        let background_monitors = zed_todos::collect_background_monitor_tool_calls(thread);
        let surface = zed_todos::render_zed_todos_categorized_surface(
            &pending_approvals,
            &thread.plan,
            &background_monitors,
            memory,
            &self.zed_todos.state,
        );
        assert(zed_todos::refer_to(
            pending_approvals@,
            zed_todos::waiting_calls(thread.entries@),
        ));
        assert(zed_todos::refer_to(
            background_monitors@,
            zed_todos::monitor_calls(thread.entries@),
        ));
        DockContent::Surface(
            DockView {
                title: "Grok Plan, Approvals & Tasks",
                ring_caption: "Context",
                ring_bucket,
                ring_status,
                usage_label,
                surface,
            },
        )
    }
}

/// The panel shows the approvals, the plan, the monitors and the memory of its thread, each
/// where there is something to show, and the ring of the thread.
pub proof fn the_panel_shows_its_thread(
    shown: DockView,
    dock: ZedTodosDockPrototype,
    thread: AcpThread,
    memory: GrokMemoryArtifacts,
    percent: u32,
)
    requires
        dock_shows(shown, dock, thread, memory, percent),
    ensures
        shown.title@ == "Grok Plan, Approvals & Tasks"@,
        shown.ring_caption@ == "Context"@,
        shown.surface.approvals is Some <==> zed_todos::waiting_calls(thread.entries@).len() > 0,
        shown.surface.background is Some <==> zed_todos::monitor_calls(thread.entries@).len() > 0,
        shown.surface.plan is Some <==> thread.plan.entries@.len() > 0,
        shown.surface.memory is Some <==> memory.has_workspace_memory || memory.has_global_memory,
        shown.surface.approvals matches Some(section) ==> section.is_expanded
            == dock.zed_todos.state.approvals_expanded,
        shown.surface.plan matches Some(section) ==> section.is_expanded
            == dock.zed_todos.state.plan_expanded,
        shown.usage_label is Some <==> thread.token_usage is Some
            && thread.token_usage->0.max_tokens > 0,
        shown.usage_label matches Some((label, color)) ==> {
            &&& percent < 50 ==> color == Color::Muted
            &&& percent >= 90 ==> color == Color::Error
        },
        thread.active_subagent_count == 0 && !thread.has_outstanding_todos
            ==> shown.ring_status.0@ == "Idle"@ && shown.ring_status.1 == Color::Muted,
        thread.active_subagent_count > 0 ==> shown.ring_status.1 == Color::Accent,
        thread.active_subagent_count < 1000 && thread.token_usage is Some
            && thread.token_usage->0.max_tokens > 0 ==> {
            &&& shown.ring_bucket / 10000 == 2 <==> percent >= 90
            &&& shown.ring_bucket / 10000 == 0 <==> percent < 50
            &&& shown.ring_bucket % 10000 / 10 == thread.active_subagent_count
            &&& shown.ring_bucket % 10 == 1 <==> thread.has_outstanding_todos
        },
{
    let counted = usage::counted_percent(thread.token_usage, percent);
    if thread.active_subagent_count < 1000 {
        usage::the_number_of_the_ring_can_be_read_off(
            usage::zone(counted),
            thread.active_subagent_count as nat,
            thread.has_outstanding_todos,
        );
    }
}

} // verus!
