use agent_ui::editing::EditorLines;
use agent_ui::activity::{ActivityContext, Awaiting, PendingPermission};
use agent_ui::callouts::{RetryStatus, SkillLoadingError, ThreadError};
use agent_ui::editor_controls::{
    build_add_context_menu, AddContextAction, AddContextInput, AvailableSkill, GrokContext,
    GrokMenuAction, GrokMenuItem, MessageEditorContext, OptionControls, SendButton, SendTooltip,
};
use agent_ui::edits::{render_edited_files, EditedBuffer};
use agent_ui::links::{open_diff_location, open_link, LinkTarget, Mention};
use agent_ui::model::{
    AcpThread, AgentPersona, AgentThreadEntry, ApprovalRisk, Color, EntryContent, IconName,
    PermissionOptions, Plan, PlanEntry, PlanEntryStatus, PromptBlock, SubagentSessionInfo,
    Terminal, ThreadStatus, TokenUsage, TokenUsageRatio, ToolCall, ToolCallContent, ToolCallId,
    ToolCallStatus, ToolKind, ToolRisk,
};
use agent_ui::model_controls::{
    fast_mode_warning_dismissed, fast_mode_warning_id, reset_fast_mode_warnings,
    set_fast_mode_warning_dismissed, EffortLevel, FastModeAction, FastModeConfirmation,
    FastModeWarnings, NativeModel, NativeThread, Speed,
};
use agent_ui::keyed::KeySet;
use agent_ui::subagent::{AnyToolCall, BadgeLabel};
use agent_ui::terminal_card::CardContext;
use agent_ui::thread_view::{ThreadView, ThreadViewInit};
use agent_ui::todos_surface::{PlanStats, PlanTitle, TodosContext};
use agent_ui::usage::{UsageContext, UsageRings};
use agent_ui::view::{
    handle_selector_action, request_options, ModelInfo, OptionCategory, OptionRequest,
    SelectorAction, SelectorTarget, Selectors, ViewContext,
};
use agent_ui::zed_todos::{BackgroundTaskBody, GrokFact, GrokMemoryArtifacts};

fn view(agent_id: &str, parent: Option<&str>) -> ThreadView {
    ThreadView::new(ThreadViewInit {
        session_id: "session".to_string(),
        parent_session_id: parent.map(str::to_string),
        agent_id: agent_id.to_string(),
        native_is_grok_build_profile: false,
        resumed_without_history: false,
        initial_content: None,
        draft_prompt: None,
        is_windows: false,
        project_is_local: true,
        metadata_title: None,
        thread_title: None,
        default_title: "New Thread".to_string(),
        is_generating: false,
        entries_count: 0,
        editor_lines: EditorLines { min_lines: 4, max_lines: 10 },
    })
    .view
}

fn thread(entries: Vec<AgentThreadEntry>) -> AcpThread {
    AcpThread {
        session_id: "session".to_string(),
        parent_session_id: None,
        title: None,
        entries,
        status: ThreadStatus::Idle,
        plan: Plan { entries: vec![], is_proposed: false },
        token_usage: None,
        token_usage_ratio: TokenUsageRatio::Normal,
        persona: None,
        has_outstanding_todos: false,
        active_subagent_count: 0,
        supports_truncate: true,
        can_retry: true,
    }
}

fn risk(risk: ApprovalRisk, label: &str) -> ToolRisk {
    ToolRisk { risk, display_label: label.to_string(), is_externally_destructive: false }
}

fn call(id: &str, status: ToolCallStatus) -> ToolCall {
    ToolCall {
        id: ToolCallId::new(id),
        label: format!("label of {id}"),
        kind: ToolKind::Other,
        status,
        content: vec![],
        locations: vec![],
        tool_name: None,
        raw_input_markdown: None,
        subagent_session_info: None,
        is_monitor: false,
        is_subagent: false,
        risk: risk(ApprovalRisk::PotentiallyDestructive, "Write"),
    }
}

fn entry(call: ToolCall) -> AgentThreadEntry {
    AgentThreadEntry { is_indented: false, content: EntryContent::ToolCall(call) }
}

fn waiting() -> ToolCallStatus {
    ToolCallStatus::WaitingForConfirmation { options: PermissionOptions::Flat(vec![]) }
}

fn spawn(id: &str, session: &str, persona: Option<AgentPersona>) -> AgentThreadEntry {
    let mut spawning = call(id, ToolCallStatus::Completed);
    spawning.is_subagent = true;
    spawning.subagent_session_info = Some(SubagentSessionInfo {
        session_id: session.to_string(),
        persona,
        message_start_index: 0,
        message_end_index: None,
    });
    entry(spawning)
}

fn terminal(id: u64, elapsed_ns: u64) -> ToolCallContent {
    ToolCallContent::Terminal(Terminal {
        entity_id: id,
        working_dir: None,
        output: None,
        elapsed_ns,
        elapsed_text: "12s".to_string(),
        has_view: true,
    })
}

fn memory() -> GrokMemoryArtifacts {
    GrokMemoryArtifacts {
        has_workspace_memory: true,
        workspace_memory_preview: None,
        workspace_memory_path: None,
        workspace_memory_full: None,
        has_global_memory: false,
        global_memory_path: None,
        global_memory_full: None,
        facts_from_db: vec![GrokFact {
            id: Some("one".to_string()),
            content: Some("fact".to_string()),
            category: None,
            session_id: None,
            metadata: None,
        }],
    }
}

fn buffer(path: &[&str]) -> EditedBuffer {
    EditedBuffer {
        path: Some(path.iter().map(|part| part.to_string()).collect()),
        full_path: format!("project/{}", path.join("/")),
        separator: "/".to_string(),
        icon: None,
        lines_added: 2,
        lines_removed: 1,
    }
}

fn cards() -> CardContext<'static> {
    CardContext {
        pending: None,
        is_native_connection: true,
        has_project: true,
        max_scroll_history_lines: 10_000,
        file_icon: None,
    }
}

fn activity<'a>(
    buffers: &'a Vec<EditedBuffer>,
    memory: &'a GrokMemoryArtifacts,
    plan_risk: &'a ToolRisk,
    focused: &'a Vec<bool>,
) -> ActivityContext<'a> {
    ActivityContext {
        changed_buffers: buffers,
        stats: (5, 3),
        pending: None,
        subagent: None,
        cards: cards(),
        spawn_risk: ApprovalRisk::PotentiallyDestructive,
        todos: TodosContext {
            native_is_grok_build_profile: false,
            memory,
            plan_stats: PlanStats { in_progress: None, pending: 0, completed: 0 },
            native_plan_is_proposed: false,
            plan_risk,
        },
        turn_stalled_secs: None,
        queue_editors_focused: focused,
        is_editor_empty: true,
    }
}

#[test]
fn watchdog_stalled_notification_uses_cheap_path_when_none_and_renders_chip_when_present() {
    let (buffers, memory, focused) = (vec![], memory(), vec![]);
    let plan_risk = risk(ApprovalRisk::PotentiallyDestructive, "Plan Change");
    let view = view("agent", None);
    let conversation = thread(vec![]);
    let turn_stalled_none: Option<std::time::Duration> = None;
    let mut context = activity(&buffers, &memory, &plan_risk, &focused);
    context.turn_stalled_secs = turn_stalled_none.map(|duration| duration.as_secs());
    assert!(
        view.render_activity_bar(&conversation, &context).is_none(),
        "no stalled turn => cheap early return, no Chip or duration work on hot path"
    );

    let turn_stalled_some = Some(std::time::Duration::from_secs(87));
    context.turn_stalled_secs = turn_stalled_some.map(|duration| duration.as_secs());
    let stalled = view
        .render_activity_bar(&conversation, &context)
        .and_then(|bar| bar.stalled)
        .expect("stalled duration triggers the 'Agent stalled' Error Chip + seconds label in ZT-1");
    assert_eq!(stalled.chip, "Agent stalled");
    assert_eq!(stalled.chip_color, Color::Error);
    assert_eq!(stalled.label, "87s no progress");
    assert_eq!(stalled.button_tooltip, "Interrupt stalled turn");
}

#[test]
fn the_bar_shows_what_there_is() {
    let buffers = vec![buffer(&["src", "b.rs"]), buffer(&["a.rs"])];
    let (memory, focused) = (memory(), vec![false]);
    let plan_risk = risk(ApprovalRisk::PotentiallyDestructive, "Plan Change");
    let mut view = view("agent", None);
    view.add_to_queue(vec![PromptBlock::Text("next".to_string())], vec![], &mut None);
    view.toggle_edits_expanded();
    let mut conversation = thread(vec![entry(call("a", waiting()))]);
    conversation.plan = Plan {
        entries: vec![PlanEntry {
            content: "step".to_string(),
            status: PlanEntryStatus::InProgress,
            risk: ApprovalRisk::ReadOnly,
            is_externally_destructive: false,
        }],
        is_proposed: false,
    };
    let mut context = activity(&buffers, &memory, &plan_risk, &focused);
    context.todos.plan_stats = PlanStats { in_progress: Some("step"), pending: 2, completed: 0 };
    let bar = view.render_activity_bar(&conversation, &context).expect("there is activity");
    assert!(bar.awaiting.is_none());
    assert_eq!(bar.queue.as_deref(), Some("1 Queued Message"));
    assert_eq!(bar.queue_entries.expect("expanded").len(), 1);
    assert!(bar.has_divider_above_queue && bar.has_divider_above_edits);
    let edits = bar.edits.expect("files were edited");
    assert_eq!(edits.label, "2 files");
    assert_eq!(edits.stats, Some((5, 3)));
    let files = bar.edited_files.expect("expanded");
    assert_eq!(files[0].file_name.as_deref(), Some("a.rs"));
    assert_eq!(files[0].buffer, 1);
    assert_eq!(files[1].directory.as_deref(), Some("src/"));
    assert!(files[0].has_bottom_border && !files[1].has_bottom_border);
    let todos = bar.todos.expect("there is a plan");
    assert_eq!(todos.approvals.expect("a call waits").label, "Agent Approvals (1)");
    match todos.plan.expect("there is a plan").title {
        PlanTitle::Current { content, left } => {
            assert_eq!(content, "step");
            assert_eq!(left.as_deref(), Some("2 left"));
        }
        PlanTitle::Overview { .. } => panic!("a step is under way"),
    }
    assert!(todos.memory.is_none());

    view.toggle_queue_expanded();
    let bar = view.render_activity_bar(&conversation, &context).expect("there is activity");
    assert!(bar.queue_entries.is_none());
}

#[test]
fn the_build_agent_shows_its_whole_surface() {
    let (buffers, memory, focused) = (vec![], memory(), vec![]);
    let plan_risk = risk(ApprovalRisk::PotentiallyDestructive, "Plan Change");
    let mut view = view("grok", None);
    let mut monitor = call("monitor", ToolCallStatus::InProgress);
    monitor.is_monitor = true;
    monitor.content = vec![terminal(7, 20_000_000_000)];
    let mut conversation = thread(vec![entry(monitor)]);
    conversation.plan = Plan {
        entries: vec![PlanEntry {
            content: "step".to_string(),
            status: PlanEntryStatus::Completed,
            risk: ApprovalRisk::ReadOnly,
            is_externally_destructive: false,
        }],
        is_proposed: true,
    };
    let mut context = activity(&buffers, &memory, &plan_risk, &focused);
    context.todos.plan_stats = PlanStats { in_progress: None, pending: 0, completed: 1 };
    let surface = view
        .render_activity_bar(&conversation, &context)
        .and_then(|bar| bar.todos)
        .expect("the surface is always there");
    assert_eq!(surface.memory.expect("the build agent").label, "Grok Memory: present (RO)");
    let (items, prompt) = surface.memory_items.expect("expanded");
    assert_eq!(items.facts.len(), 1);
    assert_eq!(prompt, "fact");
    let plan = surface.plan.expect("there is a plan");
    assert_eq!(plan.accept.expect("proposed").tooltip, "Accept proposed plan (Plan Change)");
    match plan.title {
        PlanTitle::Overview { label, status, risk, .. } => {
            assert_eq!(label, "Plan proposed");
            assert_eq!(status, "All Done");
            assert_eq!(risk, Some(("Plan Change".to_string(), Color::Warning)));
        }
        PlanTitle::Current { .. } => panic!("nothing is under way"),
    }
    let rows = surface.background_rows.expect("expanded");
    assert_eq!(rows[0].header.disclosure_id, "bg_monitor_0");
    assert_eq!(rows[0].header.elapsed.as_deref(), Some("(12s)"));
    assert_eq!(rows[0].body, None);

    view.zed_todos.toggle_background_monitor(ToolCallId::new("monitor"));
    let surface = view.render_zed_todos_surface(&conversation, &context.todos);
    let rows = surface.background_rows.expect("expanded");
    assert_eq!(rows[0].body, Some(BackgroundTaskBody::Terminal(7)));
    view.zed_todos.toggle_background_tasks_expanded();
    let surface = view.render_zed_todos_surface(&conversation, &context.todos);
    assert!(surface.background_rows.is_none());
    assert_eq!(surface.background.expect("a monitor runs").label, "Background Tasks (1)");
}

#[test]
fn subagents_are_listed_once_and_calls_out_of_sight_come_first() {
    let (buffers, memory, focused) = (vec![], memory(), vec![]);
    let plan_risk = risk(ApprovalRisk::PotentiallyDestructive, "Plan Change");
    let view = view("agent", None);
    let conversation = thread(vec![
        spawn("a", "one", None),
        spawn("b", "two", Some(AgentPersona::General)),
        spawn("c", "one", Some(AgentPersona::Explorer)),
        entry(call("d", waiting())),
    ]);
    let mut context = activity(&buffers, &memory, &plan_risk, &focused);
    match view.render_activity_bar(&conversation, &context).and_then(|bar| bar.awaiting) {
        Some(Awaiting::Subagents(list)) => {
            assert_eq!(list.count, "2");
            let entries: Vec<usize> = list.items.iter().map(|item| item.entry_ix).collect();
            assert_eq!(entries, vec![1, 2]);
            assert_eq!(list.items[0].badge.expect("a persona").label, BadgeLabel::Subagent);
            assert_eq!(
                list.items[1].badge.expect("a persona").label,
                BadgeLabel::NameOf(AgentPersona::Explorer)
            );
            assert_eq!(list.items[1].risk_label, "Destructive");
        }
        _ => panic!("the subagents"),
    }
    context.pending = Some(PendingPermission {
        entry_ix: Some(3),
        pending_count: 2,
        is_above_viewport: Some(false),
        is_below_viewport: Some(true),
    });
    match view.render_activity_bar(&conversation, &context).and_then(|bar| bar.awaiting) {
        Some(Awaiting::MainAgent(awaiting)) => {
            assert_eq!(awaiting.label, "Awaiting Confirmation (2)");
            assert_eq!(awaiting.scroll_icon, IconName::ArrowDown);
            assert!(matches!(awaiting.card, AnyToolCall::Call(_)));
        }
        _ => panic!("the call is out of sight"),
    }
}

#[test]
fn edited_files_come_in_the_order_of_their_paths() {
    let mut nameless = buffer(&[]);
    nameless.full_path = "untitled".to_string();
    let mut without_file = buffer(&["x"]);
    without_file.path = None;
    let buffers =
        vec![buffer(&["b"]), without_file, buffer(&["a", "z"]), nameless, buffer(&["a"])];
    let (order, rows) = render_edited_files(&buffers, true);
    assert_eq!(order, vec![1, 3, 4, 2, 0]);
    assert_eq!(rows.len(), 4);
    assert_eq!(rows[0].file_name.as_deref(), Some("untitled"));
    assert_eq!(rows[0].index, 1);
    assert_eq!(rows[2].full_path, "a/z");
    assert!(rows[2].is_disabled);
}

fn native(speed: Option<Speed>, thinking_enabled: bool, effort: Option<&str>) -> NativeThread {
    let level = |name: &str, is_default: bool| EffortLevel {
        name: name.to_string(),
        value: name.to_lowercase(),
        is_default,
    };
    NativeThread {
        model: Some(NativeModel {
            provider_id: "acme".to_string(),
            model_id: "m1".to_string(),
            supports_fast_mode: true,
            supports_thinking: true,
            effort_levels: vec![level("Low", false), level("Medium", true), level("High", false)],
            fast_mode_confirmation: Some(FastModeConfirmation {
                title: "Fast?".to_string(),
                message: "It costs more.".to_string(),
            }),
        }),
        speed,
        thinking_enabled,
        thinking_effort: effort.map(str::to_string),
    }
}

fn no_warnings() -> FastModeWarnings {
    FastModeWarnings { dismissed: KeySet::new() }
}

#[test]
fn fast_mode_is_confirmed_until_the_warning_is_dismissed() {
    let view = view("agent", None);
    let mut warnings = no_warnings();
    let slow = Some(native(None, false, None));
    let control = view.render_fast_mode_control(&slow, &warnings).expect("available");
    assert_eq!(control.tooltip, "Enable Fast Mode");
    assert_eq!(control.icon, IconName::FastForwardOff);
    assert_eq!(
        control.confirmation,
        Some(("Fast?".to_string(), "It costs more.".to_string()))
    );
    assert!(matches!(view.toggle_fast_mode(&slow, &warnings), FastModeAction::Confirm));
    assert_eq!(fast_mode_warning_id("acme", "m1"), "acme:m1");
    set_fast_mode_warning_dismissed("acme", "m1", &mut warnings);
    assert!(fast_mode_warning_dismissed("acme", "m1", &warnings));
    assert!(!fast_mode_warning_dismissed("acme", "m2", &warnings));
    match view.toggle_fast_mode(&slow, &warnings) {
        FastModeAction::Apply(change) => {
            assert_eq!(change.speed, Speed::Fast);
            assert_eq!(change.model, Some(("acme".to_string(), "m1".to_string())));
        }
        _ => panic!("nothing to confirm"),
    }
    reset_fast_mode_warnings(&mut warnings);
    assert!(!fast_mode_warning_dismissed("acme", "m1", &warnings));
    let fast = Some(native(Some(Speed::Fast), false, None));
    let control = view.render_fast_mode_control(&fast, &warnings).expect("available");
    assert_eq!(control.tooltip, "Disable Fast Mode");
    assert_eq!(control.new_speed, Speed::Standard);
    assert!(matches!(
        view.toggle_fast_mode(&fast, &warnings),
        FastModeAction::Apply(change) if change.speed == Speed::Standard
    ));
    assert!(matches!(view.toggle_fast_mode(&None, &warnings), FastModeAction::Nothing));
    assert!(view.render_fast_mode_control(&None, &warnings).is_none());
}

#[test]
fn efforts_go_round() {
    let view = view("agent", None);
    let next = |effort: Option<&str>| {
        view.cycle_native_agent_thinking_effort(&Some(native(None, true, effort)))
            .expect("it thinks")
            .effort
    };
    assert_eq!(next(None), "low");
    assert_eq!(next(Some("low")), "medium");
    assert_eq!(next(Some("high")), "low");
    assert_eq!(next(Some("unknown")), "low");
    let off = Some(native(None, false, Some("low")));
    assert!(view.cycle_native_agent_thinking_effort(&off).is_none());
    let control = view.render_thinking_control(&off, false).expect("it can think");
    assert_eq!(control.tooltip, "Enable Thinking Mode");
    assert!(control.effort.is_none());
    let on = Some(native(None, true, None));
    let control = view.render_thinking_control(&on, true).expect("it can think");
    let selector = control.effort.expect("there are levels");
    assert_eq!(selector.label, "Medium");
    assert_eq!(selector.icon, IconName::ChevronUp);
    assert!(selector.shows_cycle_row);
    assert!(selector.entries.iter().all(|entry| !entry.is_selected));
    let high = Some(native(None, true, Some("high")));
    let selector = view
        .render_thinking_control(&high, false)
        .and_then(|control| control.effort)
        .expect("there are levels");
    assert_eq!(selector.label, "High");
    assert!(selector.entries[2].is_selected);
    assert_eq!(view.toggle_thinking_mode(ThreadStatus::Idle, &on), Some(false));
    assert_eq!(view.toggle_thinking_mode(ThreadStatus::Generating, &on), None);
    assert!(!view.toggle_thinking(&on).expect("native").enable_thinking);
}

#[test]
fn the_send_button_follows_the_agent() {
    let mut view = view("agent", None);
    let mut conversation = thread(vec![]);
    assert_eq!(
        view.render_send_button(&conversation, true),
        SendButton::Send {
            icon: IconName::Send,
            color: Color::Muted,
            is_disabled: true,
            tooltips: SendTooltip::One("Type to Send")
        }
    );
    assert_eq!(
        view.render_send_button(&conversation, false),
        SendButton::Send {
            icon: IconName::Send,
            color: Color::Accent,
            is_disabled: false,
            tooltips: SendTooltip::One("Send Message")
        }
    );
    conversation.status = ThreadStatus::Generating;
    assert_eq!(
        view.render_send_button(&conversation, false),
        SendButton::Send {
            icon: IconName::QueueMessage,
            color: Color::Accent,
            is_disabled: false,
            tooltips: SendTooltip::Two("Queue and Send", "Send Immediately")
        }
    );
    assert!(matches!(view.render_send_button(&conversation, true), SendButton::Stop { .. }));
    view.is_loading_contents = true;
    assert!(matches!(view.render_send_button(&conversation, false), SendButton::Loading { .. }));
}

#[test]
fn context_can_be_added_as_far_as_the_agent_takes_it() {
    let skills = vec![AvailableSkill { name: "test".to_string(), source: "project".to_string() }];
    let menu = build_add_context_menu(&AddContextInput {
        supports_images: false,
        supports_embedded_context: true,
        skills: &skills,
        has_editor_selection: false,
        has_terminal_selection: true,
    });
    let labels: Vec<&str> = menu.iter().map(|entry| entry.label).collect();
    assert_eq!(
        labels,
        vec![
            "Files & Directories",
            "Symbols",
            "Threads",
            "Skills",
            "Image",
            "Selection",
            "Branch Diff"
        ]
    );
    assert!(menu[4].is_disabled && !menu[5].is_disabled && !menu[6].is_disabled);
    match &menu[3].action {
        AddContextAction::Skills(labels) => assert_eq!(labels[0], "test (project)"),
        _ => panic!("the skills"),
    }
    let none = vec![];
    let menu = build_add_context_menu(&AddContextInput {
        supports_images: true,
        supports_embedded_context: false,
        skills: &none,
        has_editor_selection: false,
        has_terminal_selection: false,
    });
    assert_eq!(menu.len(), 6);
    assert!(menu[4].is_disabled && menu[5].is_disabled);
}

fn grok_context(persona_name: &str) -> GrokContext<'_> {
    GrokContext {
        native_is_grok_build_profile: false,
        native_plan_is_proposed: false,
        persona_name,
        review_name: "Critic",
    }
}

#[test]
fn the_controls_of_the_build_agent_give_way_to_its_surface() {
    let mut grok = view("grok", None);
    let mut conversation = thread(vec![]);
    assert!(grok.render_grok_controls(&conversation, &grok_context("Explorer")).is_none());
    grok.zed_todos.toggle_approvals_expanded();
    grok.zed_todos.toggle_plan_expanded();
    grok.zed_todos.toggle_background_tasks_expanded();
    grok.zed_todos.toggle_grok_memory_expanded();
    let controls =
        grok.render_grok_controls(&conversation, &grok_context("Explorer")).expect("shown");
    assert_eq!(controls.button_label, "Grok Build");
    conversation.persona = Some(AgentPersona::Explorer);
    let controls =
        grok.render_grok_controls(&conversation, &grok_context("Explorer")).expect("shown");
    assert_eq!(controls.button_label, "Grok Build · Explorer");
    assert_eq!(controls.menu.len(), 18);
    assert!(matches!(
        &controls.menu[10],
        GrokMenuItem::Entry { label, action: GrokMenuAction::OpenTodosSurface }
            if label == "Spawn Subagent as Explorer…"
    ));
    assert!(matches!(
        &controls.menu[6],
        GrokMenuItem::Entry { label, action: GrokMenuAction::SetPersona(AgentPersona::Researcher) }
            if label == "Researcher / Explorer"
    ));
    assert!(matches!(
        &controls.menu[7],
        GrokMenuItem::Entry { label, action: GrokMenuAction::SetPersona(AgentPersona::Reviewer) }
            if label == "Critic / Verifier"
    ));
    conversation.plan.is_proposed = true;
    let controls =
        grok.render_grok_controls(&conversation, &grok_context("Explorer")).expect("shown");
    assert_eq!(controls.button_label, "Grok Build · Plan");
    let other = view("agent", None);
    assert!(other.render_grok_controls(&conversation, &grok_context("Explorer")).is_none());
    assert_eq!(grok.render_grok_session_id_copy().session_id, "session");
}

fn usage_context(split: bool) -> UsageContext {
    UsageContext {
        native_is_grok_build_profile: false,
        model_max_tokens: Some(5000),
        supports_split_token_display: split,
        max_output_tokens: Some(300),
    }
}

#[test]
fn usage_is_split_where_the_model_counts_apart() {
    let agent = view("agent", None);
    let grok = view("grok", None);
    let mut conversation = thread(vec![]);
    assert!(agent.render_token_usage(&conversation, &usage_context(false)).is_none());
    let empty = grok.render_token_usage(&conversation, &usage_context(false)).expect("always");
    assert_eq!(empty.usage.max_tokens, 5000);
    assert_eq!(
        grok.grok_effective_token_usage(&conversation, false, None).expect("always").max_tokens,
        1_000_000
    );
    conversation.token_usage = Some(TokenUsage {
        used_tokens: 100,
        max_tokens: 1000,
        max_output_tokens: None,
        input_tokens: 70,
        output_tokens: 30,
    });
    let shown = agent.render_token_usage(&conversation, &usage_context(true)).expect("reported");
    assert_eq!(shown.input_max, 700);
    match shown.rings {
        UsageRings::Split { input, output } => {
            assert_eq!((input.value, input.max), (70, 700));
            assert_eq!((output.value, output.max), (30, 300));
        }
        UsageRings::Whole(_) => panic!("split"),
    }
    assert_eq!(agent.current_ring_visual_bucket(&conversation, 10), 0);
}

#[test]
fn actions_wait_for_an_idle_agent() {
    let all = Selectors {
        has_profile_selector: true,
        has_mode_selector: true,
        has_model_selector: true,
    };
    let mode_only = Selectors { has_profile_selector: false, ..all };
    let busy = ThreadStatus::Generating;
    assert_eq!(request_options(SelectorAction::CycleModeSelector, busy), None);
    assert_eq!(
        request_options(SelectorAction::ToggleProfileSelector, busy),
        Some(OptionRequest::Toggle(OptionCategory::Mode))
    );
    assert_eq!(
        request_options(SelectorAction::CycleFavoriteModels, ThreadStatus::Idle),
        Some(OptionRequest::Cycle { category: OptionCategory::Model, favorites_only: true })
    );
    let run = |action, handled, selectors| {
        handle_selector_action(action, ThreadStatus::Idle, handled, selectors)
    };
    assert_eq!(run(SelectorAction::CycleModeSelector, false, all), SelectorTarget::CycleProfile);
    assert_eq!(run(SelectorAction::CycleModeSelector, false, mode_only), SelectorTarget::CycleMode);
    assert_eq!(run(SelectorAction::CycleModeSelector, true, all), SelectorTarget::Nothing);
    assert_eq!(
        run(SelectorAction::ToggleThinkingEffortMenu, false, all),
        SelectorTarget::ToggleEffortMenu
    );
    assert_eq!(
        run(SelectorAction::CycleThinkingEffort, false, all),
        SelectorTarget::CycleNativeEffort
    );
    assert_eq!(
        handle_selector_action(SelectorAction::ToggleProfileSelector, busy, false, mode_only),
        SelectorTarget::ToggleModeMenu
    );
    assert_eq!(
        handle_selector_action(SelectorAction::ToggleModelSelector, busy, false, all),
        SelectorTarget::Nothing
    );
}

#[test]
fn links_lead_where_they_point() {
    let url = || "zed:///x".to_string();
    let path = || "/a.rs".to_string();
    assert!(matches!(open_link(url(), false, None), LinkTarget::Url(link) if link == "zed:///x"));
    assert!(matches!(open_link(url(), true, None), LinkTarget::Url(_)));
    assert!(matches!(
        open_link(url(), false, Some(Mention::File { abs_path: path() })),
        LinkTarget::Url(_)
    ));
    assert!(matches!(
        open_link(url(), true, Some(Mention::File { abs_path: path() })),
        LinkTarget::ProjectFile(file) if file == "/a.rs"
    ));
    assert!(matches!(
        open_link(url(), true, Some(Mention::Symbol { abs_path: path(), line_start: 4 })),
        LinkTarget::Point { row: 4, column: 0, .. }
    ));
    let selection = |path: Option<String>| Mention::Selection {
        path,
        line_start: 4,
        column: Some(2),
    };
    assert!(matches!(
        open_link(url(), true, Some(selection(Some(path())))),
        LinkTarget::Point { row: 4, column: 2, .. }
    ));
    assert!(matches!(open_link(url(), true, Some(selection(None))), LinkTarget::Nothing));
    assert!(matches!(open_link(url(), true, Some(Mention::GitDiff)), LinkTarget::Nothing));
    assert!(matches!(
        open_link(url(), true, Some(Mention::Fetch { url: "https://a".to_string() })),
        LinkTarget::Url(link) if link == "https://a"
    ));
    assert!(matches!(
        open_link(url(), true, Some(Mention::Skill { skill_file_path: path() })),
        LinkTarget::File(_)
    ));
    let diff = open_diff_location(true, Some(path()), (3, 1), true).expect("known");
    assert!(diff.is_split && diff.row == 3 && diff.column == 1);
    assert!(open_diff_location(true, None, (3, 1), true).is_none());
    assert!(open_diff_location(false, Some(path()), (3, 1), true).is_none());
}

#[test]
fn the_view_is_laid_out_from_top_to_bottom() {
    let (buffers, memory, focused, skills) = (vec![], memory(), vec![], vec![]);
    let plan_risk = risk(ApprovalRisk::PotentiallyDestructive, "Plan Change");
    let warnings = no_warnings();
    let folder = Some("project".to_string());
    let native_thread = None;
    let context = |item_count: usize| ViewContext {
        spawning_call: None,
        has_native_connection: false,
        supports_additional_directories: false,
        worktree_count: Some(2),
        work_dirs: Some(&folder),
        now: 0,
        name: "agent",
        activity: activity(&buffers, &memory, &plan_risk, &focused),
        editor: MessageEditorContext {
            item_count,
            is_editor_empty: true,
            workspace_follows: false,
            native_agent_id: "Zed Agent",
            native: &native_thread,
            warnings: &warnings,
            is_effort_menu_deployed: false,
            usage: usage_context(false),
            grok: grok_context("Explorer"),
            add_context: AddContextInput {
                supports_images: true,
                supports_embedded_context: true,
                skills: &skills,
                has_editor_selection: false,
                has_terminal_selection: false,
            },
            has_profile_selector: false,
            has_config_options: false,
            has_mode_selector: true,
            has_model_selector: true,
        },
    };
    let mut root = view("agent", None);
    root.resumed_without_history = true;
    root.show_codex_windows_warning = true;
    root.new_server_version_available = Some("2.0".to_string());
    root.thread_error = Some(ThreadError::RequestFailed);
    root.thread_retry_status = Some(RetryStatus {
        last_error: "Overloaded".to_string(),
        attempt: 1,
        max_attempts: 1,
        started_at: 0,
        duration: 1,
    });
    root.update_skill_loading_errors(&vec![SkillLoadingError {
        path: "/skill".to_string(),
        message: "broken".to_string(),
    }]);
    let conversation = thread(vec![]);
    let layout = root.render(&conversation, &context(0));
    assert!(layout.titlebar.is_none() && layout.activity.is_none());
    assert_eq!(layout.resume_notice.expect("resumed").title, "Resumed Session");
    assert!(!layout.shows_entries);
    assert_eq!(
        layout.multi_root.expect("several folders").description,
        "It currently only operates by default on \"project\"."
    );
    assert_eq!(layout.skill_errors[0].description, "broken\n/skill");
    assert!(layout.external_source_warning.is_none());
    assert_eq!(layout.codex_warning.expect("on Windows").title, "Codex on Windows");
    assert!(layout.retry.is_some());
    assert_eq!(layout.error.expect("failed").title, "Request Failed");
    assert_eq!(layout.new_version.expect("no messages").button_label, "Update to v2.0");
    assert!(layout.token_limit.is_none());
    let editor = layout.editor.expect("a root view");
    assert!(editor.fills_container && editor.expand_button.is_none());
    assert_eq!(
        editor.options,
        OptionControls::Selectors { shows_mode_selector: true, shows_model_selector: true }
    );

    root.dismiss_codex_windows_warning();
    root.dismiss_multi_root_callout();
    let layout = root.render(&conversation, &context(3));
    assert!(layout.shows_entries && layout.new_version.is_none());
    assert!(layout.codex_warning.is_none() && layout.multi_root.is_none());
    assert_eq!(
        layout.editor.and_then(|editor| editor.expand_button).expect("messages").tooltip,
        "Expand Message Editor"
    );
    let mut full = thread(vec![]);
    full.token_usage = Some(TokenUsage::default());
    full.token_usage_ratio = TokenUsageRatio::Exceeded;
    let mut connected = context(3);
    connected.has_native_connection = true;
    assert!(root.render(&full, &connected).token_limit.is_none());
    assert!(root.handle_cancel(&conversation).is_some());
    assert!(root.thread_error.is_none());

    let mut subagent = view("agent", Some("parent"));
    let mut child = thread(vec![]);
    child.parent_session_id = Some("parent".to_string());
    let layout = subagent.render(&child, &context(3));
    assert!(layout.editor.is_none());
    let bar = layout.titlebar.expect("it leads back");
    assert_eq!(bar.parent_session_id, "parent");
    assert_eq!(bar.icon, Some((IconName::Check, Color::Success)));
    assert!(subagent.handle_cancel(&child).is_none());
    assert_eq!(subagent.go_back(&child).as_deref(), Some("parent"));
}

#[test]
fn near_the_limit_a_new_thread_is_offered() {
    let mut root = view("agent", None);
    let near = root
        .render_token_limit_callout(true, Some(TokenUsageRatio::Warning))
        .expect("near the limit");
    assert_eq!(near.title, "Thread reaching the token limit soon");
    let over = root
        .render_token_limit_callout(true, Some(TokenUsageRatio::Exceeded))
        .expect("at the limit");
    assert_eq!(over.title, "Thread reached the token limit");
    assert!(root.render_token_limit_callout(true, Some(TokenUsageRatio::Normal)).is_none());
    assert!(root.render_token_limit_callout(true, None).is_none());
    assert!(root.render_token_limit_callout(false, Some(TokenUsageRatio::Exceeded)).is_none());
    root.thread_error = Some(ThreadError::RequestFailed);
    root.dismiss_token_limit_callout();
    assert!(root.thread_error.is_none());
    assert!(root.render_token_limit_callout(true, Some(TokenUsageRatio::Exceeded)).is_none());
}

#[test]
fn models_and_modes_are_named() {
    let root = view("agent", None);
    let model = ModelInfo { id: "m1".to_string(), name: "Model One".to_string() };
    assert_eq!(root.current_model_id(Some(&model)).as_deref(), Some("m1"));
    assert_eq!(root.current_model_id(None), None);
    assert_eq!(root.current_model_name(true, Some(&model)), "Model One");
    assert_eq!(root.current_model_name(true, None), "The model");
    assert_eq!(root.current_model_name(false, Some(&model)), "agent");
    let (write, ask) = (Some("write".to_string()), Some("ask".to_string()));
    assert_eq!(root.current_mode_id(&write, &ask).as_deref(), Some("write"));
    assert_eq!(root.current_mode_id(&None, &ask).as_deref(), Some("ask"));
    assert!(root.is_imported_thread(Some(true)) && !root.is_imported_thread(None));
    let conversation = thread(vec![]);
    assert_eq!(root.sync_thread(Some(true), true, &conversation).as_deref(), Some("session"));
    assert_eq!(root.sync_thread(Some(true), false, &conversation), None);
    assert_eq!(root.open_thread_as_markdown(&conversation, "New Thread"), "New Thread");
}
