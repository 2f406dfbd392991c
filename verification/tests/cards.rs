use agent_ui::editing::EditorLines;
use agent_ui::entry::{
    render_completed_plan, ChunkView, ControlsContext, EntryContext, ListItem, MessageBorder,
    MessageToolbar, PrimaryView, SharingButton,
};
use agent_ui::feedback::ThreadFeedback;
use agent_ui::model::{
    AcpThread, AgentPersona, AgentThreadEntry, ApprovalRisk, AssistantMessage,
    AssistantMessageChunk, Color, ContentBlock, Diff, EntryContent, ExitStatus, IconName,
    ImageFormat, MessageBlock, PermissionOption, PermissionOptionKind, PermissionOptions, Plan,
    PlanEntry, PlanEntryStatus, SpinnerVariant, StatusIcon, SubagentSessionInfo, Terminal,
    TerminalOutput, ThreadStatus, TokenUsageRatio, ToolCall, ToolCallContent, ToolCallId,
    ToolCallLocation, ToolCallStatus, ToolKind, ToolRisk, UserMessage,
};
use agent_ui::permissions::PermissionButtons;
use agent_ui::response::{
    get_agent_message_content, is_blocked_on_terminal_command, render_message_context_menu,
    scroll_output_to_next_message, scroll_output_to_previous_message,
    scroll_to_most_recent_user_prompt, ScrollTarget, TurnStats,
};
use agent_ui::subagent::{
    render_subagent_expanded_content, subagent_error_message, AnyToolCall, BadgeLabel, EntryRange,
    SubagentBody, SubagentThread,
};
use agent_ui::terminal_card::{render_collapsible_command, CardContext, ToolCallLayout};
use agent_ui::thinking::ThinkingBlockDisplay;
use agent_ui::thread_view::{ThreadView, ThreadViewInit};
use agent_ui::tool_call::{
    location_cursor, open_tool_call_location, render_image_output, render_resource_link,
    CardFrame, CardMargin, ContentView, CursorTarget, DiffBody, FailureSign, ToolCallHeader, ToolCallOutput, ToolIcon,
};

fn view(parent: Option<&str>) -> ThreadView {
    ThreadView::new(ThreadViewInit {
        session_id: "session".to_string(),
        parent_session_id: parent.map(str::to_string),
        agent_id: "agent".to_string(),
        native_is_grok_build_profile: false,
        resumed_without_history: false,
        initial_content: None,
        draft_prompt: None,
        is_windows: false,
        project_is_local: true,
        metadata_title: None,
        thread_title: None,
        default_title: "New Thread".to_string(),
        is_generating: false,
        entries_count: 0,
        editor_lines: EditorLines { min_lines: 4, max_lines: 10 },
    })
    .view
}

fn thread(entries: Vec<AgentThreadEntry>) -> AcpThread {
    AcpThread {
        session_id: "session".to_string(),
        parent_session_id: None,
        title: None,
        entries,
        status: ThreadStatus::Idle,
        plan: Plan { entries: vec![], is_proposed: false },
        token_usage: None,
        token_usage_ratio: TokenUsageRatio::Normal,
        persona: None,
        has_outstanding_todos: false,
        active_subagent_count: 0,
        supports_truncate: true,
        can_retry: true,
    }
}

fn call(kind: ToolKind, status: ToolCallStatus) -> ToolCall {
    ToolCall {
        id: ToolCallId::new("call"),
        label: "label".to_string(),
        kind,
        status,
        content: vec![],
        locations: vec![],
        tool_name: None,
        raw_input_markdown: Some("{}".to_string()),
        subagent_session_info: None,
        is_monitor: false,
        is_subagent: false,
        risk: ToolRisk {
            risk: ApprovalRisk::PotentiallyDestructive,
            display_label: "Write".to_string(),
            is_externally_destructive: false,
        },
    }
}

fn markdown(source: &str) -> ToolCallContent {
    ToolCallContent::ContentBlock(ContentBlock::Markdown { source: source.to_string() })
}

fn diff(is_revealed: bool, focus: Option<bool>) -> ToolCallContent {
    ToolCallContent::Diff(Diff { has_revealed_range: is_revealed, editor_focus: focus })
}

fn waiting() -> ToolCallStatus {
    ToolCallStatus::WaitingForConfirmation {
        options: PermissionOptions::Flat(vec![PermissionOption {
            option_id: "once".to_string(),
            name: "Allow".to_string(),
            kind: PermissionOptionKind::AllowOnce,
        }]),
    }
}

fn entry(content: EntryContent) -> AgentThreadEntry {
    AgentThreadEntry { is_indented: false, content }
}

fn user(id: Option<&str>, checkpoint_show: Option<bool>) -> AgentThreadEntry {
    entry(EntryContent::UserMessage(UserMessage {
        id: id.map(str::to_string),
        markdown: "question".to_string(),
        checkpoint_show,
    }))
}

fn block(content: &str) -> MessageBlock {
    MessageBlock {
        markdown: Some(content.to_string()),
        rendered: content.to_string(),
        has_selection: false,
        context_menu_link: None,
    }
}

fn answer(contents: &[&str]) -> AgentThreadEntry {
    entry(EntryContent::AssistantMessage(AssistantMessage {
        chunks: contents
            .iter()
            .map(|content| AssistantMessageChunk::Message { block: block(content) })
            .collect(),
        is_subagent_output: false,
    }))
}

fn cards() -> CardContext<'static> {
    CardContext {
        pending: None,
        is_native_connection: true,
        has_project: true,
        max_scroll_history_lines: 100,
        file_icon: None,
    }
}

fn controls() -> ControlsContext<'static> {
    ControlsContext {
        show_turn_stats: true,
        stopwatch_threshold: 100,
        token_threshold: 10,
        last_turn_duration_text: "2s",
        last_turn_tokens_text: "1k",
        organization_allows_feedback: None,
        enable_feedback: true,
        has_telemetry: true,
        project_is_connected: Some(true),
        has_server_view: true,
        has_sharing_flag: true,
        is_imported_thread: false,
    }
}

fn entry_context(focus: Option<bool>) -> EntryContext<'static> {
    EntryContext {
        message_editor_focus: focus,
        thinking_display: ThinkingBlockDisplay::AlwaysExpanded,
        controls: controls(),
        cards: cards(),
        subagent: None,
    }
}

fn terminal(output: Option<TerminalOutput>) -> Terminal {
    Terminal {
        entity_id: 5,
        working_dir: Some("/project".to_string()),
        output,
        elapsed_ns: 30_000_000_000,
        elapsed_text: "30s".to_string(),
        has_view: true,
    }
}

fn output(lines: u64, success: bool, code: Option<i32>) -> TerminalOutput {
    TerminalOutput {
        content_len: 10,
        original_content_len: 20,
        content_line_count: lines,
        content_size: "10 B".to_string(),
        original_size: "20 B".to_string(),
        exit_status: Some(ExitStatus { success, code }),
    }
}

#[test]
fn a_closed_call_shows_no_output() {
    let mut view = view(None);
    let mut read = call(ToolKind::Read, ToolCallStatus::Completed);
    read.content = vec![markdown("text")];
    read.locations = vec![ToolCallLocation {
        path: "/a.rs".to_string(),
        line: Some(3),
        agent_position: Some(8),
    }];
    let card = view.render_tool_call(2, &read, ToolCallLayout::Standalone, &cards());
    assert!(card.output.is_none());
    assert!(matches!(card.frame, CardFrame::Plain));
    assert!(matches!(card.margin, CardMargin::Small));
    match card.header {
        ToolCallHeader::Label { label, has_card_background, controls } => {
            assert!(matches!(label.icon, ToolIcon::Icon(IconName::ToolSearch)));
            assert!(label.is_link && label.has_gradient && label.text_is_muted);
            assert!(!has_card_background);
            assert_eq!(controls.disclosure, Some(false));
            assert!(controls.failure.is_none());
        }
        ToolCallHeader::Command(_) => panic!("no command"),
    }
    view.set_tool_call_expanded(&read.id, true);
    let card = view.render_tool_call(2, &read, ToolCallLayout::Standalone, &cards());
    match card.output {
        Some(ToolCallOutput::Output {
            content,
            shows_raw_input,
            raw_input_markdown,
            has_collapse_button,
        }) => {
            assert_eq!(content.len(), 1);
            assert!(shows_raw_input && has_collapse_button);
            assert_eq!(raw_input_markdown.as_deref(), Some("{}"));
        }
        _ => panic!("the output"),
    }
    read.locations.push(ToolCallLocation {
        path: "/b.rs".to_string(),
        line: None,
        agent_position: None,
    });
    let entries = vec![entry(EntryContent::ToolCall(read))];
    let location = open_tool_call_location(&entries, 0, 0).expect("known");
    assert_eq!(location.path, "/a.rs");
    assert_eq!(location_cursor(location, true, Some(5)), CursorTarget::Anchor(5));
    assert_eq!(location_cursor(location, false, Some(5)), CursorTarget::Row(3));
    assert_eq!(location_cursor(location, true, None), CursorTarget::Row(3));
    let unknown = ToolCallLocation { path: String::new(), line: None, agent_position: Some(1) };
    assert_eq!(location_cursor(&unknown, true, None), CursorTarget::Row(0));
    assert!(open_tool_call_location(&entries, 0, 1).is_none());
    assert!(open_tool_call_location(&entries, 0, 2).is_none());
    assert!(open_tool_call_location(&entries, 1, 0).is_none());
}

#[test]
fn a_waiting_call_is_open_and_asks() {
    let mut view = view(None);
    let asking = call(ToolKind::Fetch, waiting());
    let id = ToolCallId::new("call");
    let mut context = cards();
    context.pending = Some(("session", &id));
    let card = view.render_tool_call(2, &asking, ToolCallLayout::Embedded, &context);
    assert!(matches!(card.frame, CardFrame::Embedded));
    assert!(matches!(card.margin, CardMargin::Nothing));
    match card.output {
        Some(ToolCallOutput::Confirmation { raw_input, confirmation, .. }) => {
            let raw_input = raw_input.expect("shown");
            assert_eq!(raw_input.header, "View Raw Input");
            assert!(raw_input.markdown.is_none());
            assert_eq!(confirmation.risk_label, "Destructive");
            assert_eq!(confirmation.risk_color, Color::Warning);
            match confirmation.buttons {
                PermissionButtons::Flat(buttons) => assert!(buttons[0].key_binding.is_some()),
                PermissionButtons::Dropdown(_) => panic!("flat"),
            }
        }
        _ => panic!("a confirmation"),
    }
    view.toggle_raw_input(&asking.id);
    match view.render_tool_call(2, &asking, ToolCallLayout::Embedded, &context).output {
        Some(ToolCallOutput::Confirmation { raw_input, .. }) => {
            let raw_input = raw_input.expect("shown");
            assert_eq!(raw_input.header, "Raw Input:");
            assert_eq!(raw_input.markdown.as_deref(), Some("{}"));
        }
        _ => panic!("a confirmation"),
    }
}

#[test]
fn an_interrupted_edit_can_be_discarded_once() {
    let mut view = view(None);
    let mut edit = call(ToolKind::Edit, ToolCallStatus::Canceled);
    edit.content = vec![diff(true, Some(false))];
    edit.locations = vec![ToolCallLocation {
        path: "/a.rs".to_string(),
        line: None,
        agent_position: None,
    }];
    let header = |view: &ThreadView, call: &ToolCall| {
        match view.render_tool_call(0, call, ToolCallLayout::Standalone, &cards()).header {
            ToolCallHeader::Label { label, controls, .. } => (label, controls),
            ToolCallHeader::Command(_) => panic!("no command"),
        }
    };
    let (label, shown) = header(&view, &edit);
    assert!(matches!(label.icon, ToolIcon::File { is_interrupted: true, .. }));
    assert!(shown.offers_discard && shown.failure.is_none() && !shown.offers_open_file);
    view.discard_partial_edit(&edit.id);
    assert!(!header(&view, &edit).1.offers_discard);
    edit.content = vec![diff(false, Some(true))];
    let (_, shown) = header(&view, &edit);
    assert!(matches!(shown.failure, Some(FailureSign::InterruptedEdit)));
    assert!(shown.offers_open_file && !shown.offers_discard);
    edit.status = ToolCallStatus::Failed;
    assert!(matches!(header(&view, &edit).1.failure, Some(FailureSign::Failed)));
    edit.content = vec![];
    edit.status = ToolCallStatus::InProgress;
    view.set_tool_call_expanded(&edit.id, true);
    let card = view.render_tool_call(0, &edit, ToolCallLayout::Standalone, &cards());
    assert!(matches!(card.output, Some(ToolCallOutput::DiffLoading)));
    assert!(matches!(card.frame, CardFrame::Card { is_dashed: false }));
    edit.status = ToolCallStatus::Rejected;
    let card = view.render_tool_call(0, &edit, ToolCallLayout::Standalone, &cards());
    assert!(matches!(card.output, Some(ToolCallOutput::Nothing)));
}

#[test]
fn contents_are_shown_by_their_kind() {
    let view = view(None);
    let read = call(ToolKind::Read, ToolCallStatus::InProgress);
    let show = |content: ToolCallContent| {
        view.render_tool_call_content(1, &content, 1, &read, true, false, &cards())
    };
    assert!(matches!(show(ToolCallContent::ContentBlock(ContentBlock::Empty)), ContentView::Nothing));
    match show(markdown("text")) {
        ContentView::Markdown(shown) => {
            assert_eq!(shown.markdown, "text");
            assert!(shown.is_card && shown.has_separator && shown.numbered.is_none());
        }
        _ => panic!("Markdown"),
    }
    match show(diff(false, None)) {
        ContentView::Diff(shown) => assert!(matches!(shown.body, DiffBody::Loading)),
        _ => panic!("a diff"),
    }
    let image = render_image_output(ImageFormat::Webp, Some((640, 480)), None, false);
    assert_eq!(image.label, "640×480 WebP");
    assert_eq!(render_image_output(ImageFormat::Png, None, None, true).label, "PNG");
    let link = render_resource_link("file:///a.rs", &Some("a.rs".to_string()), true).expect("link");
    assert_eq!(link.label, "a.rs");
    assert!(!link.is_external);
    assert_eq!(link.button_id, "item-file:///a.rs");
    let link = render_resource_link("file:///a.rs", &None, true).expect("link");
    assert_eq!(link.label, "/a.rs");
    let link = render_resource_link("https://a", &None, true).expect("link");
    assert!(link.is_external && link.label == "https://a");
    assert!(render_resource_link("https://a", &None, false).is_none());
}

#[test]
fn a_terminal_says_how_its_command_ended() {
    let mut view = view(None);
    let mut run = call(ToolKind::Execute, ToolCallStatus::Completed);
    run.label = "```\ncargo test\n```".to_string();
    let show = |view: &ThreadView, terminal: &Terminal, call: &ToolCall| {
        view.render_terminal_tool_call(0, terminal, call, ToolCallLayout::Standalone, &cards())
    };
    let card = show(&view, &terminal(Some(output(10, false, Some(2)))), &run);
    assert_eq!(card.header_id, "terminal-tool-header-5");
    assert_eq!(card.working_dir, "/project");
    assert_eq!(card.command.command_text, "cargo test");
    assert_eq!(card.elapsed.as_deref(), Some("(30s)"));
    assert!(card.is_failed && !card.is_running && !card.shows_terminal);
    assert_eq!(card.exit_tooltip.as_deref(), Some("Exited with code 2"));
    assert_eq!(
        card.truncation.as_deref(),
        Some("Output is 20 B long, and to avoid unexpected token usage, only 10 B was sent back to the agent.")
    );
    let card = show(&view, &terminal(Some(output(95, false, None))), &run);
    assert_eq!(card.exit_tooltip.as_deref(), Some("Exited with code -1"));
    assert_eq!(
        card.truncation.as_deref(),
        Some("Output exceeded terminal max lines and was truncated, the model received the first 10 B.")
    );
    let card = show(&view, &terminal(Some(output(10, true, Some(0)))), &run);
    assert!(!card.is_failed && card.exit_tooltip.is_none());
    run.status = ToolCallStatus::InProgress;
    view.set_tool_call_expanded(&run.id, true);
    let mut running = terminal(None);
    running.working_dir = None;
    running.elapsed_ns = 10_000_000_000;
    let card = show(&view, &running, &run);
    assert!(card.is_running && card.shows_terminal && card.elapsed.is_none());
    assert_eq!(card.working_dir, "current directory");
    running.elapsed_ns = 10_000_500_000;
    assert_eq!(show(&view, &running, &run).elapsed.as_deref(), Some("(30s)"));
    let preview = render_collapsible_command(true, "ls");
    assert_eq!((preview.command_text.as_str(), preview.label), ("ls", Some("Run Command")));
    assert!(view.stop_command(false, &thread(vec![])).is_none());
    assert!(!view.user_interrupted_generation);
    assert!(view.stop_command(true, &thread(vec![])).is_some());
    assert!(view.user_interrupted_generation);
}

#[test]
fn a_subagent_shows_its_last_entries() {
    let mut view = view(None);
    let mut spawning = call(ToolKind::Other, ToolCallStatus::Completed);
    spawning.is_subagent = true;
    spawning.label = String::new();
    spawning.subagent_session_info = Some(SubagentSessionInfo {
        session_id: "child".to_string(),
        persona: Some(AgentPersona::Plan),
        message_start_index: 1,
        message_end_index: Some(10),
    });
    let card = view.render_subagent_card(&spawning, &None);
    assert_eq!(card.title, "Spawning Agent…");
    assert!(card.is_dashed && matches!(card.body, SubagentBody::Nothing));
    let label = card.badge.expect("a persona").label;
    assert_eq!(label, BadgeLabel::NameOf(AgentPersona::Plan));
    assert_eq!(label.text("Critic"), "Plan");
    assert_eq!(BadgeLabel::NameOf(AgentPersona::Reviewer).text("Critic"), "Critic");
    assert_eq!(BadgeLabel::Subagent.text("Critic"), "Subagent");

    let mut child = thread((0..20).map(|_| answer(&["text"])).collect());
    child.title = Some("Child".to_string());
    let subagent = Some(SubagentThread {
        thread: &child,
        files_changed: 1,
        lines_added: 4,
        lines_removed: 2,
        has_pending_call: false,
        pending_entry_ix: None,
    });
    let card = view.render_subagent_card(&spawning, &subagent);
    assert_eq!(card.title, "Child");
    assert_eq!(card.changes.expect("one file").label, "- 1 file changed");
    assert_eq!(card.tooltip_meta, Some("Click to Preview"));
    assert_eq!(card.disclosure, Some(IconName::ChevronDown));
    assert_eq!(card.icon.icon, StatusIcon::Icon(IconName::Check, Color::Success));
    assert!(view.toggle_subagent_card(&spawning.id));
    match view.render_subagent_card(&spawning, &subagent).body {
        SubagentBody::Preview { entries, error, .. } => {
            assert_eq!((entries.start, entries.end), (3, 11));
            assert!(error.is_none());
        }
        _ => panic!("a preview"),
    }
    let EntryRange { start, end } = render_subagent_expanded_content(&spawning, 5);
    assert_eq!((start, end), (1, 5));
    spawning.status = ToolCallStatus::Failed;
    spawning.content = vec![markdown("User canceled"), markdown("boom")];
    assert_eq!(subagent_error_message(&spawning).as_deref(), Some("boom"));
    let any = view.render_any_tool_call(
        0,
        &spawning,
        ToolCallLayout::Standalone,
        &subagent,
        &cards(),
    );
    match any {
        AnyToolCall::Subagent(card) => assert_eq!(card.icon.tooltip, Some("Subagent Cancelled")),
        _ => panic!("a subagent"),
    }
    spawning.status = ToolCallStatus::Completed;
    assert!(subagent_error_message(&spawning).is_none());
}

#[test]
fn all_entries_of_a_response_copy_the_same() {
    let entries = vec![
        answer(&["zero"]),
        user(None, None),
        answer(&["one", " ", "two"]),
        entry(EntryContent::ToolCall(call(ToolKind::Read, ToolCallStatus::Completed))),
        answer(&["three"]),
        user(None, None),
    ];
    assert_eq!(get_agent_message_content(&entries, 0).as_deref(), Some("zero"));
    for index in 2..5 {
        assert_eq!(
            get_agent_message_content(&entries, index).as_deref(),
            Some("one\n\ntwo\n\nthree")
        );
    }
    assert!(get_agent_message_content(&entries, 1).is_none());
    assert!(get_agent_message_content(&entries, 9).is_none());
    assert_eq!(scroll_output_to_previous_message(&entries, 5), ScrollTarget::Entry(1));
    assert_eq!(scroll_output_to_previous_message(&entries, 1), ScrollTarget::Nothing);
    assert_eq!(scroll_output_to_next_message(&entries, 1), ScrollTarget::Entry(5));
    assert_eq!(scroll_output_to_next_message(&entries, 5), ScrollTarget::Nothing);
    assert_eq!(scroll_to_most_recent_user_prompt(&entries), ScrollTarget::Entry(5));
    assert_eq!(scroll_to_most_recent_user_prompt(&vec![answer(&["a"])]), ScrollTarget::End);
    assert_eq!(scroll_to_most_recent_user_prompt(&vec![]), ScrollTarget::Nothing);
}

#[test]
fn the_menu_of_a_message_copies_links_and_selections() {
    let mut linked = block("text");
    linked.context_menu_link = Some("https://a".to_string());
    linked.has_selection = true;
    let entries = vec![entry(EntryContent::AssistantMessage(AssistantMessage {
        chunks: vec![
            AssistantMessageChunk::Thought { block: block("hm") },
            AssistantMessageChunk::Message { block: linked },
        ],
        is_subagent_output: false,
    }))];
    let menu = render_message_context_menu(&entries, 0, true);
    assert_eq!(menu.link.as_deref(), Some("https://a"));
    assert!(menu.can_copy_selection);
    assert_eq!(menu.scroll_label, "Scroll to Bottom");
    assert_eq!(menu.id, "agent_context_menu-0");
    let menu = render_message_context_menu(&entries, 4, false);
    assert!(menu.link.is_none() && !menu.can_copy_selection);
    assert_eq!(menu.scroll_label, "Scroll to Top");
}

fn stats(now: u64) -> TurnStats<'static> {
    TurnStats {
        show_turn_stats: true,
        now,
        stopwatch_threshold: 100,
        token_threshold: 10,
        elapsed_text: "2s",
        tokens_text: "1k",
        has_in_progress_tool_calls: false,
    }
}

#[test]
fn the_indicator_tells_what_the_agent_waits_for() {
    let mut view = view(None);
    let running = call(ToolKind::Execute, ToolCallStatus::InProgress);
    let mut conversation =
        thread(vec![user(None, None), entry(EntryContent::ToolCall(running))]);
    assert!(!is_blocked_on_terminal_command(&conversation));
    conversation.status = ThreadStatus::Generating;
    assert!(is_blocked_on_terminal_command(&conversation));
    view.start_turn(0);
    let shown = view.render_generating(false, &conversation, &stats(50));
    assert_eq!((shown.spinner, shown.label), (None, None));
    assert!(shown.elapsed.is_none());
    view.turn_fields.turn_tokens = Some(20);
    let shown = view.render_generating(true, &conversation, &stats(200));
    assert_eq!(shown.spinner, Some(SpinnerVariant::Sand));
    assert_eq!(shown.label, Some("Awaiting Confirmation"));
    assert_eq!(shown.elapsed.as_deref(), Some("2s"));
    assert_eq!(shown.tokens.as_deref(), Some("1k tokens"));
    assert_eq!(shown.arrow_icon, IconName::ArrowUp);
    conversation.entries.push(entry(EntryContent::ToolCall(call(
        ToolKind::Read,
        ToolCallStatus::Pending,
    ))));
    assert!(!is_blocked_on_terminal_command(&conversation));
    let shown = view.render_generating(false, &conversation, &stats(50));
    assert_eq!(shown.spinner, Some(SpinnerVariant::Dots));

    view.generating_indicator_in_list = true;
    let item = view.render_entries(3, &conversation, &entry_context(None), &stats(50));
    assert!(matches!(item, ListItem::Generating(_)));
    view.generating_indicator_in_list = false;
    let item = view.render_entries(3, &conversation, &entry_context(None), &stats(50));
    assert!(matches!(item, ListItem::Nothing));
}

#[test]
fn a_message_can_be_edited_where_the_thread_can_restart() {
    let mut view = view(None);
    let mut conversation = thread(vec![user(Some("a"), Some(true)), answer(&["one", " "])]);
    let shown = |view: &ThreadView, conversation: &AcpThread| {
        match view.render_entry(0, 2, conversation, &entry_context(Some(true))) {
            Some(entry) => match entry.primary {
                PrimaryView::UserMessage(message) => message,
                _ => panic!("a message"),
            },
            None => panic!("drawn"),
        }
    };
    let message = shown(&view, &conversation);
    assert!(message.has_checkpoint_button);
    assert!(matches!(message.border, MessageBorder::Hoverable));
    view.editing_message = Some(0);
    assert!(matches!(shown(&view, &conversation).border, MessageBorder::Focused));
    assert!(matches!(message.toolbar, Some(MessageToolbar::Editable { is_loading: false })));
    conversation.supports_truncate = false;
    let message = shown(&view, &conversation);
    assert!(!message.has_checkpoint_button);
    match message.toolbar {
        Some(MessageToolbar::Unavailable { note }) => {
            assert_eq!(note, "Editing previous messages is not available for agent yet.")
        }
        _ => panic!("a note"),
    }
    assert!(view.render_entry(0, 2, &conversation, &entry_context(None)).is_none());

    view.thread_feedback.feedback = Some(ThreadFeedback::Positive);
    view.turn_fields.last_turn_duration = Some(2000);
    view.turn_fields.last_turn_tokens = Some(1000);
    let last = view.render_entry(1, 2, &conversation, &entry_context(None)).expect("drawn");
    assert!(last.has_backdrop);
    let controls = last.controls.expect("the last entry");
    assert_eq!(controls.clock.as_deref(), Some("2s"));
    assert_eq!(controls.tokens.as_deref(), Some("1k tokens"));
    assert!(matches!(controls.sharing, Some(SharingButton::Share)));
    let (up, down) = controls.ratings.expect("ratings are allowed");
    assert_eq!(up.tooltip, "Thanks for your feedback!");
    assert_eq!(down.tooltip, "Not Helpful Response");
    match last.primary {
        PrimaryView::AssistantMessage { chunks, is_last } => {
            assert!(is_last);
            assert_eq!(chunks.len(), 1);
            assert!(matches!(&chunks[0], ChunkView::Message { markdown } if markdown == "one"));
        }
        _ => panic!("an answer"),
    }
    conversation.status = ThreadStatus::Generating;
    let last = view.render_entry(1, 2, &conversation, &entry_context(None)).expect("drawn");
    assert!(last.controls.is_none());
}

#[test]
fn a_completed_plan_counts_its_steps() {
    let step = |content: &str| PlanEntry {
        content: content.to_string(),
        status: PlanEntryStatus::Completed,
        risk: ApprovalRisk::ReadOnly,
        is_externally_destructive: false,
    };
    let plan = render_completed_plan(&vec![step("one"), step("two")]);
    assert_eq!(plan.label, "- 2 steps");
    assert!(plan.steps[0].has_bottom_border && !plan.steps[1].has_bottom_border);
    assert_eq!(render_completed_plan(&vec![step("one")]).label, "- 1 step");
}
