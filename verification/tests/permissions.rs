use agent_ui::editing::EditorLines;
use agent_ui::model::{
    AcpThread, AgentThreadEntry, ApprovalRisk, Color, EntryContent, IconName, PermissionOption,
    PermissionOptionChoice, PermissionOptionKind, PermissionOptions, PermissionPattern, Plan,
    ThreadStatus, TokenUsageRatio, ToolCall, ToolCallId, ToolCallStatus, ToolKind, ToolRisk,
};
use agent_ui::permissions::{
    option_kind, render_permission_buttons, render_permission_buttons_flat, PendingAnswer,
    PermissionAction, PermissionButtons, PermissionSelection,
};
use agent_ui::thread_view::{ThreadView, ThreadViewInit};

fn view() -> ThreadView {
    ThreadView::new(ThreadViewInit {
        session_id: "session".to_string(),
        parent_session_id: None,
        agent_id: "agent".to_string(),
        native_is_grok_build_profile: false,
        resumed_without_history: false,
        initial_content: None,
        draft_prompt: None,
        is_windows: false,
        project_is_local: true,
        metadata_title: None,
        thread_title: None,
        default_title: "New Thread".to_string(),
        is_generating: false,
        entries_count: 0,
        editor_lines: EditorLines { min_lines: 4, max_lines: 10 },
    })
    .view
}

fn option(id: &str, kind: PermissionOptionKind) -> PermissionOption {
    PermissionOption { option_id: id.to_string(), name: format!("name of {id}"), kind }
}

fn choice(label: &str) -> PermissionOptionChoice {
    PermissionOptionChoice {
        label: label.to_string(),
        allow: option("allow", PermissionOptionKind::AllowOnce),
        deny: option("deny", PermissionOptionKind::RejectOnce),
    }
}

fn patterns() -> PermissionOptions {
    PermissionOptions::DropdownWithPatterns {
        choices: vec![choice("Always for terminal"), choice("Only this time")],
        patterns: vec![
            PermissionPattern { display_name: "cargo".to_string() },
            PermissionPattern { display_name: "git".to_string() },
        ],
        tool_name: "terminal".to_string(),
    }
}

fn thread(options: PermissionOptions) -> AcpThread {
    let call = ToolCall {
        id: ToolCallId::new("call"),
        label: "cargo test".to_string(),
        kind: ToolKind::Execute,
        status: ToolCallStatus::WaitingForConfirmation { options },
        content: vec![],
        locations: vec![],
        tool_name: None,
        raw_input_markdown: None,
        subagent_session_info: None,
        is_monitor: false,
        is_subagent: false,
        risk: ToolRisk {
            risk: ApprovalRisk::PotentiallyDestructive,
            display_label: "Destructive".to_string(),
            is_externally_destructive: true,
        },
    };
    AcpThread {
        session_id: "session".to_string(),
        parent_session_id: None,
        title: None,
        entries: vec![AgentThreadEntry { is_indented: false, content: EntryContent::ToolCall(call) }],
        status: ThreadStatus::Idle,
        plan: Plan { entries: vec![], is_proposed: false },
        token_usage: None,
        token_usage_ratio: TokenUsageRatio::Normal,
        persona: None,
        has_outstanding_todos: false,
        active_subagent_count: 0,
        supports_truncate: true,
        can_retry: true,
    }
}

fn checked(view: &ThreadView) -> Vec<usize> {
    match view.permission_selections.get(&ToolCallId::new("call")) {
        Some(PermissionSelection::SelectedPatterns(checked)) => checked.clone(),
        _ => panic!("patterns are selected"),
    }
}

#[test]
fn permission_selection_supports_granularity_action_paths_for_approvals() {
    let choice = PermissionSelection::Choice(3);
    assert_eq!(choice.choice_index(), Some(3));
    let mut patterns = PermissionSelection::SelectedPatterns(vec![0, 1, 2]);
    assert!(patterns.has_any_checked_patterns());
    assert!(patterns.is_pattern_checked(1));
    assert_eq!(patterns.choice_index(), None);
    patterns.toggle_pattern(1);
    assert!(!patterns.is_pattern_checked(1));
    patterns.toggle_pattern(5);
    assert!(patterns.is_pattern_checked(5));
}

#[test]
fn toggling_takes_the_last_pattern_to_the_free_place() {
    let mut patterns = PermissionSelection::SelectedPatterns(vec![0, 1, 2, 3]);
    patterns.toggle_pattern(1);
    match &patterns {
        PermissionSelection::SelectedPatterns(checked) => assert_eq!(*checked, vec![0, 3, 2]),
        PermissionSelection::Choice(_) => panic!("patterns"),
    }
    let mut choice = PermissionSelection::Choice(0);
    choice.toggle_pattern(0);
    assert_eq!(choice.choice_index(), Some(0));
    assert!(!choice.has_any_checked_patterns());
}

#[test]
fn only_the_first_option_of_a_kind_has_a_key_binding() {
    let options = vec![
        option("once", PermissionOptionKind::AllowOnce),
        option("once again", PermissionOptionKind::AllowOnce),
        option("always", PermissionOptionKind::AllowAlways),
        option("reject", PermissionOptionKind::RejectOnce),
        option("reject again", PermissionOptionKind::RejectOnce),
        option("reject always", PermissionOptionKind::RejectAlways),
        option("always again", PermissionOptionKind::AllowAlways),
    ];
    let buttons = render_permission_buttons_flat(true, &options, 4);
    let bindings: Vec<Option<PermissionAction>> =
        buttons.iter().map(|button| button.key_binding).collect();
    assert_eq!(
        bindings,
        vec![
            Some(PermissionAction::AllowOnce),
            None,
            Some(PermissionAction::AllowAlways),
            Some(PermissionAction::RejectOnce),
            None,
            None,
            None,
        ]
    );
    assert_eq!(buttons[0].icon, IconName::Check);
    assert_eq!(buttons[0].icon_color, Color::Success);
    assert_eq!(buttons[2].icon, IconName::CheckDouble);
    assert_eq!(buttons[3].icon, IconName::Close);
    assert_eq!(buttons[3].icon_color, Color::Error);
    assert_eq!(buttons[3].entry_ix, 4);
    assert_eq!(buttons[3].option_id, "reject");
    assert_eq!(buttons[3].name, "name of reject");

    let other = vec![option("other", PermissionOptionKind::Other)];
    let unknown = render_permission_buttons_flat(true, &other, 4);
    assert_eq!((unknown[0].icon, unknown[0].icon_color), (IconName::Close, Color::Error));
    assert!(unknown[0].key_binding.is_none());

    let later = render_permission_buttons_flat(false, &options, 4);
    assert!(later.iter().all(|button| button.key_binding.is_none()));
}

#[test]
fn a_dropdown_starts_with_its_last_choice() {
    match render_permission_buttons(true, &patterns(), None, 2) {
        PermissionButtons::Dropdown(dropdown) => {
            assert_eq!(dropdown.label, "Only this time");
            assert!(dropdown.shows_key_bindings);
            assert!(!dropdown.menu.choices[0].is_selected);
            assert!(dropdown.menu.choices[1].is_selected);
            let menu = dropdown.menu.patterns.expect("there are patterns");
            assert_eq!(menu.header, "Select Options…");
            assert_eq!(menu.entries[0].label, "Always for `cargo` commands");
            assert!(!menu.entries[0].is_selected);
            assert!(!menu.apply_enabled);
        }
        PermissionButtons::Flat(_) => panic!("a dropdown"),
    }
    let first = PermissionSelection::Choice(0);
    match render_permission_buttons(true, &patterns(), Some(&first), 2) {
        PermissionButtons::Dropdown(dropdown) => {
            assert_eq!(dropdown.label, "Always for terminal");
            assert!(dropdown.menu.choices[0].is_selected);
        }
        PermissionButtons::Flat(_) => panic!("a dropdown"),
    }
}

#[test]
fn selected_patterns_take_the_place_of_the_choices() {
    let selection = PermissionSelection::SelectedPatterns(vec![1]);
    match render_permission_buttons(false, &patterns(), Some(&selection), 2) {
        PermissionButtons::Dropdown(dropdown) => {
            assert_eq!(dropdown.label, "Always for selected commands");
            assert!(dropdown.menu.choices.iter().all(|choice| !choice.is_selected));
            let menu = dropdown.menu.patterns.expect("there are patterns");
            assert!(!menu.entries[0].is_selected);
            assert!(menu.entries[1].is_selected);
            assert!(menu.apply_enabled);
        }
        PermissionButtons::Flat(_) => panic!("a dropdown"),
    }
    match render_permission_buttons(false, &PermissionOptions::Dropdown(vec![]), None, 2) {
        PermissionButtons::Dropdown(dropdown) => assert_eq!(dropdown.label, "Only this time"),
        PermissionButtons::Flat(_) => panic!("a dropdown"),
    }
}

#[test]
fn the_first_click_selects_all_patterns() {
    let mut view = view();
    let conversation = thread(patterns());
    view.handle_toggle_command_pattern(&conversation, "call", 0);
    assert_eq!(checked(&view), vec![0, 1]);
    view.handle_toggle_command_pattern(&conversation, "call", 0);
    assert_eq!(checked(&view), vec![1]);
    view.handle_toggle_command_pattern(&conversation, "call", 0);
    assert_eq!(checked(&view), vec![1, 0]);
    view.handle_select_permission_granularity("call", 1);
    view.handle_toggle_command_pattern(&conversation, "call", 0);
    assert_eq!(checked(&view), vec![0, 1]);
    view.handle_toggle_command_pattern(&conversation, "unknown", 0);
    assert!(view.permission_selections.get(&ToolCallId::new("unknown")).is_some());
}

#[test]
fn answers_carry_what_was_selected() {
    let mut view = view();
    view.should_be_following = true;
    let id = ToolCallId::new("call");
    let answer = view.authorize_with_granularity("session".to_string(), id.clone(), true);
    assert!(answer.selection.is_none());
    assert!(answer.is_allow && answer.follow);

    view.handle_select_permission_granularity("call", 1);
    let answer = view
        .authorize_pending_with_granularity(Some(("session".to_string(), id.clone())), false)
        .expect("pending");
    assert_eq!(answer.selection.and_then(|selection| selection.choice_index()), Some(1));
    assert!(!answer.is_allow);
    assert!(view.authorize_pending_with_granularity(None, false).is_none());

    let answer = view.allow_all_patterns("session".to_string(), id, 3);
    match answer.selection {
        Some(PermissionSelection::SelectedPatterns(checked)) => assert_eq!(checked, vec![0, 1, 2]),
        _ => panic!("patterns are selected"),
    }
    assert_eq!(checked(&view), vec![0, 1, 2]);
    assert_eq!(view.allow_always(), PendingAnswer::Kind(PermissionOptionKind::AllowAlways));
    assert_eq!(view.allow_once(), PendingAnswer::Selected { is_allow: true });
    assert_eq!(view.reject_once(), PendingAnswer::Selected { is_allow: false });
    assert_eq!(view.authorize_pending_tool_call(true), Some(true));
    assert_eq!(view.authorize_pending_tool_call(false), None);
}

#[test]
fn kinds_have_names_and_an_unknown_name_allows_once() {
    assert_eq!(option_kind("AllowOnce"), PermissionOptionKind::AllowOnce);
    assert_eq!(option_kind("AllowAlways"), PermissionOptionKind::AllowAlways);
    assert_eq!(option_kind("RejectOnce"), PermissionOptionKind::RejectOnce);
    assert_eq!(option_kind("RejectAlways"), PermissionOptionKind::RejectAlways);
    assert_eq!(option_kind("anything"), PermissionOptionKind::AllowOnce);
    let answer = view().handle_authorize_tool_call("call", "option", "RejectAlways");
    assert_eq!(answer.session_id, "session");
    assert_eq!(answer.tool_call_id.value, "call");
    assert_eq!(answer.option_id, "option");
    assert_eq!(answer.option_kind, PermissionOptionKind::RejectAlways);
    assert!(!answer.follow);
}
