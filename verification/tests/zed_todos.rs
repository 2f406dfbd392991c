use agent_ui::dock::{DockContent, ZedTodosDockPrototype};
use agent_ui::keyed::KeySet;
use agent_ui::model::{
    AcpThread, AgentPersona, AgentThreadEntry, ApprovalRisk, Color, EntryContent, IconName,
    LabelSize, PermissionOption, PermissionOptionChoice, PermissionOptionKind, PermissionOptions,
    PermissionPattern, Plan, PlanEntry, PlanEntryStatus, StatusIcon, ThreadStatus, TokenUsage,
    TokenUsageRatio, ToolCall, ToolCallId, ToolCallStatus, ToolKind, ToolRisk,
};
use agent_ui::subagent::render_persona_badge;
use agent_ui::thread_view::ThreadView;
use agent_ui::zed_todos::{
    collect_background_monitor_tool_calls, collect_background_monitor_tool_calls_free,
    collect_pending_approval_tool_calls, collect_pending_approval_tool_calls_free,
    render_agent_approvals_section, render_approval_row, render_background_task_row,
    render_grok_memory_items, render_plan_entries, render_risk_chip, render_risk_chip_with_tool,
    render_zed_todos_categorized_surface, ApprovalActionButton, ApprovalRow, BackgroundTaskBody,
    BackgroundTaskHeader, BackgroundTaskRow, GrokFact, GrokMemoryArtifacts, MemoryItems,
    PlanEntryRow, ZedTodos, ZedTodosComponent,
};

fn risk(risk: ApprovalRisk, display_label: &str, is_externally_destructive: bool) -> ToolRisk {
    ToolRisk { risk, display_label: display_label.to_string(), is_externally_destructive }
}

fn call(id: &str, status: ToolCallStatus, is_monitor: bool, tool_risk: ToolRisk) -> ToolCall {
    ToolCall {
        id: ToolCallId::new(id),
        label: format!("label of {id}"),
        kind: ToolKind::Execute,
        status,
        content: vec![],
        locations: vec![],
        tool_name: None,
        raw_input_markdown: None,
        subagent_session_info: None,
        is_monitor,
        is_subagent: false,
        risk: tool_risk,
    }
}

fn entry(call: ToolCall) -> AgentThreadEntry {
    AgentThreadEntry { is_indented: false, content: EntryContent::ToolCall(call) }
}

fn thread(entries: Vec<AgentThreadEntry>) -> AcpThread {
    AcpThread {
        session_id: "session".to_string(),
        parent_session_id: None,
        title: None,
        entries,
        status: ThreadStatus::Idle,
        plan: Plan { entries: vec![], is_proposed: false },
        token_usage: None,
        token_usage_ratio: TokenUsageRatio::Normal,
        persona: None,
        has_outstanding_todos: false,
        active_subagent_count: 0,
        supports_truncate: true,
        can_retry: true,
    }
}

fn option(id: &str, kind: PermissionOptionKind) -> PermissionOption {
    PermissionOption { option_id: id.to_string(), name: id.to_string(), kind }
}

fn flat(options: Vec<PermissionOption>) -> ToolCallStatus {
    ToolCallStatus::WaitingForConfirmation { options: PermissionOptions::Flat(options) }
}

fn no_memory() -> GrokMemoryArtifacts {
    GrokMemoryArtifacts {
        has_workspace_memory: false,
        workspace_memory_preview: None,
        workspace_memory_path: None,
        workspace_memory_full: None,
        has_global_memory: false,
        global_memory_path: None,
        global_memory_full: None,
        facts_from_db: vec![],
    }
}

fn step(content: &str, status: PlanEntryStatus) -> PlanEntry {
    PlanEntry {
        content: content.to_string(),
        status,
        risk: ApprovalRisk::PotentiallyDestructive,
        is_externally_destructive: false,
    }
}

#[test]
fn collapsed_monitor_items_use_cheap_path_by_default() {
    let expanded_set: KeySet<ToolCallId> = KeySet::new();
    assert!(
        expanded_set.is_empty(),
        "default collapsed state ensures O(1) cost (no heavy content) during output bursts"
    );
}

#[test]
fn approval_action_labels_use_cwd_classification_write_vs_destructive() {
    let write_risk = ApprovalRisk::PotentiallyDestructive;
    let in_project_write_label =
        ZedTodosComponent::format_classified_approval_action_label_with_tool(
            "Allow once",
            &risk(write_risk, "Write", false),
        );
    assert_eq!(in_project_write_label, "Allow once (Write)");
    let escape_destructive_label =
        ZedTodosComponent::format_classified_approval_action_label_with_tool(
            "Allow always",
            &risk(write_risk, "Destructive", true),
        );
    assert_eq!(escape_destructive_label, "Allow always (Destructive)");
    let plan_change_label = ZedTodosComponent::format_classified_approval_action_label_with_tool(
        "Deny",
        &risk(write_risk, "Plan Change", false),
    );
    assert_eq!(plan_change_label, "Deny (Plan Change)");
    let plan_accept = ZedTodosComponent::build_plan_accept_button_with_tool(&risk(
        write_risk,
        "Plan Change",
        false,
    ));
    assert_eq!(plan_accept.tooltip, "Accept proposed plan (Plan Change)");
}

#[test]
fn zed_todos_defaults_all_sections_collapsed_by_default_for_efficiency() {
    let todos = ZedTodos::default();
    assert!(!todos.approvals_expanded);
    assert!(!todos.plan_expanded);
    assert!(!todos.background_tasks_expanded);
    assert!(todos.grok_memory_expanded);
    assert!(todos.expanded_background_monitors.is_empty());
}

#[test]
fn zed_todos_grok_default_visibility_preserves_collapsed_base() {
    let todos = ZedTodos::default();
    assert!(!todos.plan_expanded);
    assert!(todos.grok_memory_expanded);
}

#[test]
fn zed_todos_component_initializes_with_collapsed_state() {
    let component = ZedTodosComponent::new();
    assert!(!component.state.approvals_expanded);
    assert!(!component.state.plan_expanded);
    assert!(!component.state.background_tasks_expanded);
    assert!(component.state.grok_memory_expanded);
}

#[test]
fn zed_todos_supports_expansion_toggles_for_all_sections() {
    let mut zed_todos_state = ZedTodos::default();
    zed_todos_state.approvals_expanded = true;
    assert!(zed_todos_state.approvals_expanded);
    zed_todos_state.plan_expanded = true;
    zed_todos_state.background_tasks_expanded = true;
    zed_todos_state.grok_memory_expanded = true;
    zed_todos_state.expanded_background_monitors.insert(ToolCallId::new("monitor-1"));
    assert!(zed_todos_state.plan_expanded);
    assert_eq!(zed_todos_state.expanded_background_monitors.len(), 1);
}

#[test]
fn collection_helpers_are_pub_for_reusable_component_and_integration() {
    let _pending_approvals_collector: fn(&AcpThread) -> Vec<&ToolCall> =
        collect_pending_approval_tool_calls;
    let _background_monitors_collector: fn(&AcpThread) -> Vec<&ToolCall> =
        collect_background_monitor_tool_calls;
}

#[test]
fn o1_collapsed_behavior_uses_empty_expanded_sets_and_false_flags() {
    let zed_todos_state = ZedTodos::default();
    assert!(zed_todos_state.expanded_background_monitors.is_empty());
    assert!(!zed_todos_state.background_tasks_expanded);
    assert!(!zed_todos_state.approvals_expanded);
    let component = ZedTodosComponent::new();
    assert!(component.state.expanded_background_monitors.is_empty());
}

#[test]
fn zed_todos_component_public_api_collects_via_delegation() {
    let pending_approvals_collector: fn(&AcpThread) -> Vec<&ToolCall> =
        collect_pending_approval_tool_calls;
    let background_monitors_collector: fn(&AcpThread) -> Vec<&ToolCall> =
        collect_background_monitor_tool_calls;
    let _ = (pending_approvals_collector, background_monitors_collector);
}

#[test]
fn zed_todos_component_public_methods_for_state_and_queries() {
    let mut component = ZedTodosComponent::new();
    component.toggle_approvals_expanded();
    assert!(component.state.approvals_expanded);
    component.toggle_plan_expanded();
    assert!(component.state.plan_expanded);
    component.toggle_background_tasks_expanded();
    assert!(component.state.background_tasks_expanded);

    assert!(component.state.grok_memory_expanded);
    component.toggle_grok_memory_expanded();
    assert!(!component.state.grok_memory_expanded);
    component.toggle_grok_memory_expanded();
    assert!(component.state.grok_memory_expanded);

    let monitor_id = ToolCallId::new("monitor-for-reuse");
    component.toggle_background_monitor(monitor_id.clone());
    assert!(component.is_background_monitor_expanded(&monitor_id));
    component.toggle_background_monitor(monitor_id.clone());
    assert!(!component.is_background_monitor_expanded(&monitor_id));
}

#[test]
fn reusable_render_helpers_available_for_zt1_rows() {
    let _ = render_background_task_row::<BackgroundTaskHeader>;
}

#[test]
fn reusable_background_monitor_row_for_zt1() {
    let _ = render_background_task_row::<BackgroundTaskHeader>;
}

#[test]
fn mock_dock_consumer_owns_own_zedtodoscomponent_instance_calls_public_collectors_exercises_full_surface_render_including_risk_chips_approval_actions_plan_rows_and_collapsed_paths(
) {
    struct MockDockConsumer {
        zed_todos: ZedTodosComponent,
    }
    impl MockDockConsumer {
        fn new() -> Self {
            Self { zed_todos: ZedTodosComponent::new() }
        }
    }
    let mut mock_dock_consumer = MockDockConsumer::new();
    let _pending_approvals_collector: fn(&AcpThread) -> Vec<&ToolCall> =
        collect_pending_approval_tool_calls;
    let _background_monitors_collector: fn(&AcpThread) -> Vec<&ToolCall> =
        collect_background_monitor_tool_calls;
    assert!(!mock_dock_consumer.zed_todos.state.approvals_expanded);
    assert!(!mock_dock_consumer.zed_todos.state.plan_expanded);
    assert!(!mock_dock_consumer.zed_todos.state.background_tasks_expanded);
    assert!(mock_dock_consumer.zed_todos.state.grok_memory_expanded);
    assert!(mock_dock_consumer.zed_todos.state.expanded_background_monitors.is_empty());
    mock_dock_consumer.zed_todos.toggle_approvals_expanded();
    assert!(mock_dock_consumer.zed_todos.state.approvals_expanded);
    mock_dock_consumer.zed_todos.toggle_plan_expanded();
    assert!(mock_dock_consumer.zed_todos.state.plan_expanded);
    mock_dock_consumer.zed_todos.toggle_background_tasks_expanded();
    assert!(mock_dock_consumer.zed_todos.state.background_tasks_expanded);
    mock_dock_consumer.zed_todos.toggle_grok_memory_expanded();
    mock_dock_consumer.zed_todos.state.grok_memory_expanded = true;
    assert!(mock_dock_consumer.zed_todos.state.grok_memory_expanded);
    let background_monitor_identifier = ToolCallId::new("mock-dock-consumer-monitor");
    mock_dock_consumer.zed_todos.toggle_background_monitor(background_monitor_identifier.clone());
    assert!(mock_dock_consumer
        .zed_todos
        .is_background_monitor_expanded(&background_monitor_identifier));
    mock_dock_consumer.zed_todos.toggle_background_monitor(background_monitor_identifier.clone());
    assert!(!mock_dock_consumer
        .zed_todos
        .is_background_monitor_expanded(&background_monitor_identifier));
    let read_only_risk_chip = render_risk_chip(ApprovalRisk::ReadOnly, false, LabelSize::XSmall);
    assert_eq!(read_only_risk_chip.label, "RO");
    let destructive_risk_chip = render_risk_chip(ApprovalRisk::PotentiallyDestructive, false, LabelSize::XSmall);
    assert_eq!(destructive_risk_chip.label, "RW");
    let _ = ZedTodosComponent::render_plan_entry_row;
    let _ = render_background_task_row::<BackgroundTaskHeader>;
    let _ = render_approval_row;
    let _ = ZedTodosComponent::pending_approval_counts;
    let _ = ZedTodosComponent::pending_approval_options_for_tool_call;
    let _ = ZedTodosComponent::format_classified_approval_action_label;
    let _ = ZedTodosComponent::approval_action_check_icon_color;
    let _ = ZedTodosDockPrototype::new;
    let _ = render_grok_memory_items;
    let second_mock_dock_consumer = MockDockConsumer::new();
    assert!(!second_mock_dock_consumer.zed_todos.state.approvals_expanded);
}

#[test]
fn overlay_open_and_zoom_exercises_full_agent_mode_surface_for_mock_grok_thread_with_proposed_plan_and_pending_ro_destructive_approval(
) {
    let mut state = ZedTodos::default();
    state.plan_expanded = true;
    state.approvals_expanded = true;
    state.background_tasks_expanded = true;
    state.grok_memory_expanded = true;
    let _ = render_zed_todos_categorized_surface;
    let _ = ZedTodosDockPrototype::new_for_thread;
    assert!(
        state.approvals_expanded
            && state.plan_expanded
            && state.background_tasks_expanded
            && state.grok_memory_expanded
    );
    let _ = state;
}

#[test]
fn subagent_persona_attribution_behavior_for_native_and_bridged_in_classified_zt1_surface_and_subagent_views_exercises_current_gaps(
) {
    let all_personas = [
        AgentPersona::General,
        AgentPersona::Implementer,
        AgentPersona::Reviewer,
        AgentPersona::Researcher,
        AgentPersona::Explorer,
        AgentPersona::Plan,
        AgentPersona::Architect,
        AgentPersona::Verifier,
    ];
    for persona in all_personas {
        assert!(render_persona_badge(Some(persona)).is_some());
    }
    let bridged_subagent_thread_view_persona_in_creation = None::<AgentPersona>;
    assert!(render_persona_badge(bridged_subagent_thread_view_persona_in_creation).is_none());
    let _ = render_zed_todos_categorized_surface;
    let plan_entry_row_for_zed_todos: fn(usize, usize, &PlanEntry) -> PlanEntryRow =
        ZedTodosComponent::render_plan_entry_row;
    let _ = plan_entry_row_for_zed_todos;
    let approval_row_for_zed_todos: fn(
        &ToolRisk,
        String,
        Option<(ApprovalActionButton, PermissionOption)>,
        Option<(ApprovalActionButton, PermissionOption)>,
        Option<(ApprovalActionButton, usize)>,
        Option<(ApprovalActionButton, PermissionOption)>,
    ) -> ApprovalRow = render_approval_row;
    let _ = approval_row_for_zed_todos;
    let background_row_for_zed_todos: fn(
        BackgroundTaskHeader,
        Option<BackgroundTaskBody>,
    ) -> BackgroundTaskRow<BackgroundTaskHeader> = render_background_task_row;
    let _ = background_row_for_zed_todos;
    let mut zt1_state_for_gaps = ZedTodos::default();
    zt1_state_for_gaps.plan_expanded = true;
    assert!(zt1_state_for_gaps.plan_expanded);
}

#[test]
fn zed_todos_component_exercises_pending_approval_counts_through_public_interface() {
    let pending_approval_counts_reference: fn(&AcpThread) -> (usize, usize, usize) =
        ZedTodosComponent::pending_approval_counts;
    let _ = pending_approval_counts_reference;
}

#[test]
fn zed_todos_component_exercises_render_plan_entry_row_through_public_interface() {
    let render_plan_entry_row_reference: fn(usize, usize, &PlanEntry) -> PlanEntryRow =
        ZedTodosComponent::render_plan_entry_row;
    let _ = render_plan_entry_row_reference;
}

#[test]
fn zed_todos_component_exercises_both_cleaned_methods_through_public_interface() {
    let pending_approval_counts_reference: fn(&AcpThread) -> (usize, usize, usize) =
        ZedTodosComponent::pending_approval_counts;
    let _ = pending_approval_counts_reference;
    let render_plan_entry_row_reference: fn(usize, usize, &PlanEntry) -> PlanEntryRow =
        ZedTodosComponent::render_plan_entry_row;
    let _ = render_plan_entry_row_reference;
}

#[test]
fn plan_entry_row_signature_prepared_for_future_turn_id_and_task_slug_fields() {
    let plan_entry_row_reference: fn(usize, usize, &PlanEntry) -> PlanEntryRow =
        ZedTodosComponent::render_plan_entry_row;
    let _ = plan_entry_row_reference;
}

#[test]
fn full_agent_mode_button_opens_surface_for_grok_thread_with_proposed_plan_risk_chip_ro_destructive_pending_approval_background_monitor_memory_items_expansion_toggles_and_action_dispatch(
) {
    let mut component = ZedTodosComponent::new();
    component.toggle_approvals_expanded();
    component.toggle_plan_expanded();
    component.toggle_background_tasks_expanded();
    component.toggle_grok_memory_expanded();
    let monitor_identifier = ToolCallId::new("full-agent-mode-background-monitor");
    component.toggle_background_monitor(monitor_identifier.clone());
    assert!(component.is_background_monitor_expanded(&monitor_identifier));
    component.toggle_background_monitor(monitor_identifier.clone());
    assert!(!component.is_background_monitor_expanded(&monitor_identifier));
    assert_eq!(ApprovalRisk::ReadOnly.label(), "RO");
    assert!(ApprovalRisk::ReadOnly.is_read_only());
    let proposed_risk = ApprovalRisk::PotentiallyDestructive;
    assert_eq!(proposed_risk.label(), "Destructive");
    let plan_accept_button = ZedTodosComponent::build_plan_accept_button_with_tool(&risk(
        proposed_risk,
        "Plan Change",
        false,
    ));
    assert_eq!(plan_accept_button.id, "accept-proposed-plan");
    let dock_prototype_constructor: fn(String) -> ZedTodosDockPrototype =
        ZedTodosDockPrototype::new;
    let _ = dock_prototype_constructor;
    let dock_prototype_for_thread_constructor: fn(&AcpThread) -> ZedTodosDockPrototype =
        ZedTodosDockPrototype::new_for_thread;
    let _ = dock_prototype_for_thread_constructor;
    let memory_items: fn(&GrokMemoryArtifacts) -> MemoryItems = render_grok_memory_items;
    let _ = memory_items;
    let mut state = ZedTodos::default();
    state.approvals_expanded = true;
    state.plan_expanded = true;
    state.background_tasks_expanded = true;
    state.grok_memory_expanded = true;
    state.expanded_background_monitors.insert(ToolCallId::new("full-mode-monitor-two"));
    assert!(state.approvals_expanded);
    assert_eq!(state.expanded_background_monitors.len(), 1);
}

#[test]
fn native_grok_launch_path_to_full_agent_mode_overlay_e2e_exercises_grok_native_selection_xai_model_open_zed_todos_surface_pre_expanded_auto_zoom_and_rich_classified_surface(
) {
    let mut overlay_state = ZedTodos::default();
    overlay_state.approvals_expanded = true;
    overlay_state.plan_expanded = true;
    overlay_state.background_tasks_expanded = true;
    overlay_state.grok_memory_expanded = true;
    assert!(
        overlay_state.approvals_expanded
            && overlay_state.plan_expanded
            && overlay_state.background_tasks_expanded
            && overlay_state.grok_memory_expanded
    );
    let lazy_monitor = ToolCallId::new("lazy-monitor-native-full-agent");
    overlay_state.expanded_background_monitors.insert(lazy_monitor.clone());
    assert!(overlay_state.expanded_background_monitors.contains(&lazy_monitor));
    let memory_items_renderer: fn(&GrokMemoryArtifacts) -> MemoryItems = render_grok_memory_items;
    let _ = memory_items_renderer;
}

#[test]
fn cross_platform_full_agent_mode_discoverability_polish_final_closer_all_entry_points_converge_to_same_prepared_zt1_surface(
) {
    let mut full_overlay = ZedTodos::default();
    full_overlay.approvals_expanded = true;
    full_overlay.plan_expanded = true;
    full_overlay.background_tasks_expanded = true;
    full_overlay.grok_memory_expanded = true;
    assert!(
        full_overlay.approvals_expanded && full_overlay.grok_memory_expanded,
        "GNOME-polished pre-expansion (Linux) or spacious equivalent (macOS/Windows)"
    );
    let accept =
        ZedTodosComponent::build_plan_accept_button(ApprovalRisk::PotentiallyDestructive);
    assert_eq!(accept.tooltip, "Accept proposed plan (Destructive)");
    let lazy = ToolCallId::new("crossplat-lazy");
    full_overlay.expanded_background_monitors.insert(lazy.clone());
    assert!(full_overlay.expanded_background_monitors.contains(&lazy));
    let in_thread = ZedTodos::default();
    assert!(
        in_thread.grok_memory_expanded && !in_thread.plan_expanded,
        "enhanced activity bar Grok Memory prominent by default with facts support"
    );
}

#[test]
fn regression_protection_for_user_complaints_stray_copy_button_missing_todos_pane_useless_memory_label_and_rich_zt1_default_on_grok_create_and_switch(
) {
    let mut rich_grok_state = ZedTodos::default();
    rich_grok_state.approvals_expanded = true;
    rich_grok_state.plan_expanded = true;
    rich_grok_state.background_tasks_expanded = true;
    rich_grok_state.grok_memory_expanded = true;
    assert!(
        rich_grok_state.approvals_expanded
            && rich_grok_state.plan_expanded
            && rich_grok_state.background_tasks_expanded
            && rich_grok_state.grok_memory_expanded,
        "Grok threads receive the full classified ZT-1 todos surface (RO/Destructive + proposed plans + monitors + memory) by default on create and switch"
    );
    let mut prepared = ZedTodosDockPrototype::new("thread".to_string());
    prepared.prepare_for_full_agent_mode();
    assert!(
        prepared.zed_todos.state.grok_memory_expanded,
        "prepare_for_full_agent_mode expands the complete surface"
    );
    let _id_copy_method_exists = ThreadView::render_grok_session_id_copy;
    let clean_memory_artifacts =
        GrokMemoryArtifacts { has_workspace_memory: true, ..no_memory() };
    let items = render_grok_memory_items(&clean_memory_artifacts);
    assert!(items.facts.is_empty());
    assert!(items.preview.is_none());
    assert!(items.disabled_notice.is_none());
}

#[test]
fn a_pane_prepared_for_the_full_mode_shows_every_section() {
    let mut prepared = ZedTodosDockPrototype::new("thread".to_string());
    assert!(!prepared.zed_todos.state.plan_expanded);
    prepared.prepare_for_full_agent_mode();
    let state = &prepared.zed_todos.state;
    assert!(
        state.approvals_expanded
            && state.plan_expanded
            && state.background_tasks_expanded
            && state.grok_memory_expanded
    );
    assert!(state.expanded_background_monitors.is_empty());
    assert_eq!(prepared.thread, "thread");
    assert_eq!(prepared.last_ring_bucket, None);
}

#[test]
fn collectors_find_waiting_calls_and_monitors_in_order() {
    let conversation = thread(vec![
        entry(call("a", flat(vec![]), false, risk(ApprovalRisk::ReadOnly, "RO", false))),
        entry(call(
            "b",
            ToolCallStatus::InProgress,
            true,
            risk(ApprovalRisk::PotentiallyDestructive, "Write", false),
        )),
        entry(call(
            "c",
            flat(vec![]),
            true,
            risk(ApprovalRisk::PotentiallyDestructive, "Destructive", true),
        )),
    ]);
    let approvals: Vec<&str> = collect_pending_approval_tool_calls_free(&conversation)
        .iter()
        .map(|call| call.id.value.as_str())
        .collect();
    assert_eq!(approvals, ["a", "c"]);
    let monitors: Vec<&str> = collect_background_monitor_tool_calls_free(&conversation)
        .iter()
        .map(|call| call.id.value.as_str())
        .collect();
    assert_eq!(monitors, ["b", "c"]);
    assert_eq!(ZedTodosComponent::pending_approval_counts(&conversation), (2, 1, 1));
}

#[test]
fn the_first_option_of_each_kind_answers() {
    let waiting = call(
        "a",
        flat(vec![
            option("reject", PermissionOptionKind::RejectOnce),
            option("always", PermissionOptionKind::AllowAlways),
            option("once", PermissionOptionKind::AllowOnce),
            option("once again", PermissionOptionKind::AllowOnce),
        ]),
        false,
        risk(ApprovalRisk::PotentiallyDestructive, "Write", false),
    );
    let (once, always, reject_once, reject_always) =
        ZedTodosComponent::pending_approval_options_for_tool_call(&waiting);
    assert_eq!(once.expect("offered").option_id, "once");
    assert_eq!(always.expect("offered").option_id, "always");
    assert_eq!(reject_once.expect("offered").option_id, "reject");
    assert!(reject_always.is_none());

    let done = call(
        "b",
        ToolCallStatus::Completed,
        false,
        risk(ApprovalRisk::ReadOnly, "RO", false),
    );
    let (once, _, _, _) = ZedTodosComponent::pending_approval_options_for_tool_call(&done);
    assert!(once.is_none());
}

#[test]
fn an_approval_offers_what_its_request_offers() {
    let patterns = PermissionOptions::DropdownWithPatterns {
        choices: vec![PermissionOptionChoice {
            label: "Only this time".to_string(),
            allow: option("once", PermissionOptionKind::AllowOnce),
            deny: option("no", PermissionOptionKind::RejectAlways),
        }],
        patterns: vec![
            PermissionPattern { display_name: "cargo".to_string() },
            PermissionPattern { display_name: "git".to_string() },
        ],
        tool_name: "terminal".to_string(),
    };
    let waiting = call(
        "a",
        ToolCallStatus::WaitingForConfirmation { options: patterns },
        false,
        risk(ApprovalRisk::PotentiallyDestructive, "Destructive", true),
    );
    let section = render_agent_approvals_section(&vec![&waiting], true);
    assert_eq!(section.id, "approvals_summary");
    assert_eq!(section.label, "Agent Approvals (1)");
    let rows = section.rows.expect("expanded");
    let row = &rows[0];
    assert_eq!(row.chip.label, "!");
    assert_eq!(row.chip.icon, Some(IconName::Warning));
    assert_eq!(row.label, "label of a");
    assert_eq!(row.label_color, Color::Warning);
    let (button, answer) = row.allow_once.as_ref().expect("offered");
    assert_eq!(button.label, "Allow once (Destructive)");
    assert_eq!(button.icon_color, Color::Success);
    assert_eq!(answer.option_id, "once");
    assert!(row.allow_always.is_none());
    let (button, count) = row.granular_allow.as_ref().expect("offered");
    assert_eq!(button.label, "Allow granular (Destructive)");
    assert_eq!(button.icon_color, Color::Warning);
    assert_eq!(*count, 2);
    let (button, answer) = row.deny.as_ref().expect("offered");
    assert_eq!(button.label, "Deny always (Destructive)");
    assert_eq!(answer.option_id, "no");

    assert!(render_agent_approvals_section(&vec![&waiting], false).rows.is_none());
}

#[test]
fn chips_tell_reading_from_writing() {
    assert_eq!(render_risk_chip(ApprovalRisk::ReadOnly, false, LabelSize::XSmall).color, Color::Success);
    assert_eq!(render_risk_chip(ApprovalRisk::PotentiallyDestructive, false, LabelSize::XSmall).color, Color::Accent);
    let chip = render_risk_chip_with_tool(&risk(ApprovalRisk::ReadOnly, "RO", true), LabelSize::Small);
    assert_eq!(chip.label, "!");
    assert_eq!(chip.color, Color::Warning);
    assert_eq!(chip.label_size, LabelSize::Small);
}

#[test]
fn actions_carry_the_word_for_their_risk() {
    assert_eq!(
        ZedTodosComponent::build_allow_once_action(3, ApprovalRisk::ReadOnly).label,
        "Allow once (RO)"
    );
    let always = ZedTodosComponent::build_allow_always_action(
        3,
        ApprovalRisk::PotentiallyDestructive,
    );
    assert_eq!(always.label, "Allow always (Destructive)");
    assert_eq!(always.icon_color, Color::Warning);
    assert_eq!(always.item_index, 3);
    let granular = ZedTodosComponent::build_granular_allow_action(0, ApprovalRisk::ReadOnly);
    assert_eq!(granular.icon, IconName::CheckDouble);
    assert_eq!(
        ZedTodosComponent::build_deny_action(0, ApprovalRisk::ReadOnly, true).label,
        "Deny always (RO)"
    );
    assert_eq!(
        ZedTodosComponent::build_deny_action(0, ApprovalRisk::ReadOnly, false).label,
        "Deny (RO)"
    );
}

#[test]
fn plan_rows_show_their_state() {
    let plan = Plan {
        entries: vec![
            step("read", PlanEntryStatus::Completed),
            step("write", PlanEntryStatus::InProgress),
            step("test", PlanEntryStatus::Pending),
        ],
        is_proposed: false,
    };
    let rows = render_plan_entries(&plan);
    assert_eq!(rows.len(), 3);
    assert_eq!(rows[0].status_icon, StatusIcon::Icon(IconName::Check, Color::Success));
    assert_eq!(rows[1].status_icon, StatusIcon::Spinner);
    assert_eq!(rows[2].status_icon, StatusIcon::Icon(IconName::Circle, Color::Muted));
    assert!(rows[0].has_bottom_border && rows[1].has_bottom_border);
    assert!(!rows[2].has_bottom_border);
    assert_eq!(rows[2].group, "plan-entry-group-2");
    assert_eq!(rows[2].text, "test");
}

#[test]
fn memory_shows_facts_with_a_content() {
    let artifacts = GrokMemoryArtifacts {
        has_workspace_memory: true,
        workspace_memory_preview: Some("preview".to_string()),
        facts_from_db: vec![
            GrokFact {
                id: Some("one".to_string()),
                content: Some("fact one".to_string()),
                category: Some("preference".to_string()),
                session_id: None,
                metadata: None,
            },
            GrokFact {
                id: Some("two".to_string()),
                content: None,
                category: None,
                session_id: None,
                metadata: None,
            },
            GrokFact {
                id: None,
                content: Some("fact three".to_string()),
                category: None,
                session_id: None,
                metadata: None,
            },
        ],
        ..no_memory()
    };
    let items = render_grok_memory_items(&artifacts);
    assert_eq!(items.facts.len(), 2);
    assert_eq!(items.facts[0].content, "fact one");
    assert_eq!(items.facts[0].copy_key, "copy-grok-fact-one");
    assert_eq!(items.facts[1].copy_key, "copy-grok-fact-anon");
    assert_eq!(items.preview.as_deref(), Some("preview"));
    assert!(items.disabled_notice.is_none());
    assert!(render_grok_memory_items(&no_memory()).disabled_notice.is_some());
}

#[test]
fn the_dock_shows_the_surface_and_the_ring_of_its_thread() {
    let mut dock = ZedTodosDockPrototype::new("session".to_string());
    let none = dock.render(None, &no_memory(), 0);
    match none {
        DockContent::NoThread(note) => assert_eq!(note, "No active thread for ZT-1 surface"),
        DockContent::Surface(_) => panic!("there is no thread"),
    }
    assert_eq!(dock.last_ring_bucket, None);

    let mut conversation = thread(vec![entry(call(
        "a",
        flat(vec![]),
        true,
        risk(ApprovalRisk::ReadOnly, "RO", false),
    ))]);
    conversation.plan =
        Plan { entries: vec![step("read", PlanEntryStatus::Pending)], is_proposed: true };
    conversation.active_subagent_count = 3;
    conversation.token_usage =
        Some(TokenUsage { used_tokens: 92, max_tokens: 100, ..TokenUsage::default() });
    dock.prepare_for_full_agent_mode();
    match dock.render(Some(&conversation), &no_memory(), 92) {
        DockContent::Surface(shown) => {
            assert_eq!(shown.title, "Grok Plan, Approvals & Tasks");
            assert_eq!(shown.ring_bucket, 20030);
            assert_eq!(shown.ring_status, ("3 sub-agents".to_string(), Color::Accent));
            assert_eq!(shown.usage_label, Some(("92% imminent".to_string(), Color::Error)));
            let plan = shown.surface.plan.expect("there is a plan");
            assert_eq!(plan.label, "Plan proposed (1)");
            assert_eq!(plan.disclosure_id, "zt1_conv_plan");
            assert_eq!(plan.rows.expect("expanded").len(), 1);
            let approvals = shown.surface.approvals.expect("a call waits");
            assert_eq!(approvals.label, "Agent Approvals (1)");
            let monitors = shown.surface.background.expect("a monitor runs");
            assert_eq!(monitors.label, "Background Monitors (1)");
            assert!(shown.surface.memory.is_none());
        }
        DockContent::NoThread(_) => panic!("there is a thread"),
    }
    assert_eq!(dock.last_ring_bucket, Some(20030));
}

fn expanded_overlay() -> ZedTodos {
    let mut state = ZedTodos::default();
    state.approvals_expanded = true;
    state.plan_expanded = true;
    state.background_tasks_expanded = true;
    state.grok_memory_expanded = true;
    state
}

#[test]
fn e2e_full_agent_mode_native_grok_launch_discoverability_toolbar_palette_keybind_autozoom_preexpand_rich_zt1_surface_persona_subagent_badge_attribution_with_known_gaps(
) {
    let mut overlay_state = expanded_overlay();
    assert!(
        overlay_state.approvals_expanded
            && overlay_state.plan_expanded
            && overlay_state.background_tasks_expanded
            && overlay_state.grok_memory_expanded,
        "pre-expanded sections after prepare_for_full_agent_mode() on open for hardware polish (auto-zoom)"
    );
    assert_eq!(render_risk_chip(ApprovalRisk::ReadOnly, false, LabelSize::XSmall).label, "RO");
    assert_eq!(render_risk_chip(ApprovalRisk::PotentiallyDestructive, false, LabelSize::XSmall).label, "RW");
    let plan_accept_button =
        ZedTodosComponent::build_plan_accept_button(ApprovalRisk::PotentiallyDestructive);
    assert_eq!(plan_accept_button.tooltip, "Accept proposed plan (Destructive)");
    let lazy_monitor = ToolCallId::new("e2e-full-agent-lazy-monitor");
    overlay_state.expanded_background_monitors.insert(lazy_monitor.clone());
    assert!(
        overlay_state.expanded_background_monitors.contains(&lazy_monitor),
        "lazy per-monitor expansion in rich ZT-1 surface"
    );
    let memory_renderer: fn(&GrokMemoryArtifacts) -> MemoryItems = render_grok_memory_items;
    let _ = memory_renderer;
    let _rich_classified_surface = render_zed_todos_categorized_surface;
    let dock_prototype_for_thread: fn(&AcpThread) -> ZedTodosDockPrototype =
        ZedTodosDockPrototype::new_for_thread;
    let _ = dock_prototype_for_thread;
    let plan_row_no_per_item_badge: fn(usize, usize, &PlanEntry) -> PlanEntryRow =
        ZedTodosComponent::render_plan_entry_row;
    let _ = plan_row_no_per_item_badge;
    let _approval_row_no_per_item_badge = render_approval_row;
    let _background_row_no_per_item_badge: fn(
        BackgroundTaskHeader,
        Option<BackgroundTaskBody>,
    ) -> BackgroundTaskRow<BackgroundTaskHeader> = render_background_task_row;
}

#[test]
fn dual_path_grok_experience_normal_threadview_activity_bar_with_grok_memory_prominent_by_default_and_other_zt1_sections_preserved_o1_plus_dedicated_full_agent_mode_overlay_pre_expanded_auto_zoomed_labeled_rich_classified_via_discoverability_for_grok_native_and_bridged_with_persona_subagent_attribution(
) {
    let activity_bar_state = ZedTodos::default();
    assert!(activity_bar_state.grok_memory_expanded);
    assert!(!activity_bar_state.approvals_expanded);
    assert!(!activity_bar_state.plan_expanded);
    assert!(!activity_bar_state.background_tasks_expanded);
    assert!(activity_bar_state.expanded_background_monitors.is_empty());
    let _grok_memory_items_activity: fn(&GrokMemoryArtifacts) -> MemoryItems =
        render_grok_memory_items;
    let _pending_approvals_activity_collector: fn(&AcpThread) -> Vec<&ToolCall> =
        collect_pending_approval_tool_calls;
    let _background_monitors_activity_collector: fn(&AcpThread) -> Vec<&ToolCall> =
        collect_background_monitor_tool_calls;
    let mut overlay_state = expanded_overlay();
    assert!(
        overlay_state.approvals_expanded
            && overlay_state.plan_expanded
            && overlay_state.background_tasks_expanded
            && overlay_state.grok_memory_expanded
    );
    let _ = render_zed_todos_categorized_surface;
    let _dock_ctor: fn(String) -> ZedTodosDockPrototype = ZedTodosDockPrototype::new;
    let _dock_for_thread_ctor: fn(&AcpThread) -> ZedTodosDockPrototype =
        ZedTodosDockPrototype::new_for_thread;
    let _ro_chip_overlay = render_risk_chip(ApprovalRisk::ReadOnly, false, LabelSize::XSmall);
    let _destructive_chip_overlay = render_risk_chip(ApprovalRisk::PotentiallyDestructive, false, LabelSize::XSmall);
    let lazy_id = ToolCallId::new("dual-path-lazy-monitor");
    overlay_state.expanded_background_monitors.insert(lazy_id);
    assert_eq!(overlay_state.expanded_background_monitors.len(), 1);
    let _row_for_overlay_plan: fn(usize, usize, &PlanEntry) -> PlanEntryRow =
        ZedTodosComponent::render_plan_entry_row;
}

#[test]
fn native_grok_full_agent_mode_memory_artifacts_via_grok_worktrees_db_correlation_and_proposed_plan_with_todo_write_entries_parity_e2e_exercises_rich_classified_zt1_surface_with_ro_chips_copybuttons_destructive_risk_accept_button_and_persona_attribution_in_overlay_and_activity_bar(
) {
    let activity_bar_state = ZedTodos::default();
    assert!(activity_bar_state.grok_memory_expanded);
    assert!(!activity_bar_state.plan_expanded);
    assert!(!activity_bar_state.approvals_expanded);
    let workspace_memory = GrokMemoryArtifacts {
        has_workspace_memory: true,
        workspace_memory_path: Some(
            "/workspace/.grok/memory/native-session-after-fix".to_string(),
        ),
        ..no_memory()
    };
    let _ = render_grok_memory_items(&workspace_memory);
    let proposed_plan_risk = ApprovalRisk::PotentiallyDestructive;
    assert_eq!(proposed_plan_risk.label(), "Destructive");
    let _plan_accept_button = ZedTodosComponent::build_plan_accept_button(proposed_plan_risk);
    let overlay_state = expanded_overlay();
    assert!(overlay_state.grok_memory_expanded && overlay_state.plan_expanded);
    let _ = render_zed_todos_categorized_surface;
    let memory_with_facts = GrokMemoryArtifacts {
        has_workspace_memory: true,
        workspace_memory_preview: Some(
            "md preview from grok memory after worktrees db correlation fix".to_string(),
        ),
        workspace_memory_path: Some("/workspace/project/.grok/memory".to_string()),
        workspace_memory_full: Some("full content of MEMORY.md with structured facts".to_string()),
        facts_from_db: vec![GrokFact {
            id: Some("fact-019e3f42-ef9a-74b1-bd81-407cb9078eb5".to_string()),
            content: Some(
                "**Grok memory fact from DB**: user requires full words, no abbreviations, hermetic GPUI TDD coverage for full agent mode GNOME high-DPI polish."
                    .to_string(),
            ),
            category: Some("preference".to_string()),
            session_id: Some("019e3f42-ef9a-74b1-bd81-407cb9078eb5".to_string()),
            metadata: None,
        }],
        ..no_memory()
    };
    assert_eq!(render_grok_memory_items(&memory_with_facts).facts.len(), 1);
}
