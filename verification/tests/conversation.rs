use agent_ui::callouts::{
    render_error_callout, render_new_version_callout, CalloutAction, RetryStatus,
    SkillLoadingError, ThreadError,
};
use agent_ui::editing::{
    draft_prompt, EditorLines, EditorMode, FocusTarget, Splice, TitleAction, TitleEditorEvent,
};
use agent_ui::events::{
    CardSettings, EntryAction, MessageEditorAction, MessageEditorEvent, ViewEvent,
};
use agent_ui::feedback::{FeedbackContext, ThreadFeedback, ThreadFeedbackState};
use agent_ui::following::FollowAction;
use agent_ui::keyed::KeySet;
use agent_ui::model::{
    AcpThread, AgentThreadEntry, ApprovalRisk, AssistantMessage, AssistantMessageChunk, Diff,
    EntryContent, MessageBlock, Plan, PromptBlock, Severity, ThreadStatus, TokenUsage,
    TokenUsageRatio, ToolCall, ToolCallContent, ToolCallId, ToolCallStatus, ToolKind, ToolRisk,
    UserMessage,
};
use agent_ui::queue::{InputAttempt, QueueButtons, SendBinding};
use agent_ui::sending::{
    provisional_title, sendable_contents, InterruptAction, SendAction, SendInput, Sending,
    TurnStatus,
};
use agent_ui::thinking::{ThinkingBlockDisplay, ThinkingBlockKey};
use agent_ui::thread_view::{
    AcpThreadViewEvent, AgentInitialContent, InitialEditorContent, NewThreadView, ThreadView,
    ThreadViewInit,
};

fn init(agent_id: &str) -> ThreadViewInit {
    ThreadViewInit {
        session_id: "session".to_string(),
        parent_session_id: None,
        agent_id: agent_id.to_string(),
        native_is_grok_build_profile: false,
        resumed_without_history: false,
        initial_content: None,
        draft_prompt: None,
        is_windows: false,
        project_is_local: true,
        metadata_title: None,
        thread_title: None,
        default_title: "New Thread".to_string(),
        is_generating: false,
        entries_count: 0,
        editor_lines: EditorLines { min_lines: 4, max_lines: 10 },
    }
}

fn view() -> ThreadView {
    ThreadView::new(init("agent")).view
}

fn thread(entries: Vec<AgentThreadEntry>) -> AcpThread {
    AcpThread {
        session_id: "session".to_string(),
        parent_session_id: None,
        title: None,
        entries,
        status: ThreadStatus::Idle,
        plan: Plan { entries: vec![], is_proposed: false },
        token_usage: None,
        token_usage_ratio: TokenUsageRatio::Normal,
        persona: None,
        has_outstanding_todos: false,
        active_subagent_count: 0,
        supports_truncate: true,
        can_retry: true,
    }
}

fn generating_thread() -> AcpThread {
    let mut generating = thread(vec![]);
    generating.status = ThreadStatus::Generating;
    generating
}

fn entry(content: EntryContent) -> AgentThreadEntry {
    AgentThreadEntry { is_indented: false, content }
}

fn user(id: Option<&str>) -> AgentThreadEntry {
    entry(EntryContent::UserMessage(UserMessage {
        id: id.map(str::to_string),
        markdown: "question".to_string(),
        checkpoint_show: None,
    }))
}

fn thought() -> AgentThreadEntry {
    entry(EntryContent::AssistantMessage(AssistantMessage {
        chunks: vec![AssistantMessageChunk::Thought {
            block: MessageBlock {
                markdown: Some("hm".to_string()),
                rendered: "hm".to_string(),
                has_selection: false,
                context_menu_link: None,
            },
        }],
        is_subagent_output: false,
    }))
}

fn edit() -> AgentThreadEntry {
    entry(EntryContent::ToolCall(ToolCall {
        id: ToolCallId::new("edit"),
        label: "Edit".to_string(),
        kind: ToolKind::Edit,
        status: ToolCallStatus::Completed,
        content: vec![ToolCallContent::Diff(Diff { has_revealed_range: true, editor_focus: None })],
        locations: vec![],
        tool_name: None,
        raw_input_markdown: None,
        subagent_session_info: None,
        is_monitor: false,
        is_subagent: false,
        risk: ToolRisk {
            risk: ApprovalRisk::PotentiallyDestructive,
            display_label: "Write".to_string(),
            is_externally_destructive: false,
        },
    }))
}

fn text(content: &str) -> Vec<PromptBlock> {
    vec![PromptBlock::Text(content.to_string())]
}

fn is_text(content: &[PromptBlock], expected: &str) -> bool {
    match content {
        [PromptBlock::Text(text)] => text == expected,
        _ => false,
    }
}

#[test]
fn follow_button_is_transient_by_default_and_clears_on_response_end() {
    let mut view = view();
    assert!(!view.should_be_following);
    assert!(!view.follow_only_until_response_ends);

    assert_eq!(view.toggle_following(ThreadStatus::Generating, false), FollowAction::Follow);
    assert!(view.follow_only_until_response_ends);
    assert!(view.is_following(ThreadStatus::Generating, true));
    assert!(!view.is_following(ThreadStatus::Idle, true));
    assert!(view.clear_transient_follow_if_needed());
    assert!(!view.should_be_following);
    assert!(!view.follow_only_until_response_ends);
    assert!(!view.clear_transient_follow_if_needed());

    let toggle = view.render_follow_toggle(ThreadStatus::Idle, false, "Zed Agent");
    assert_eq!(toggle.tooltip, "Follow agent (this response)");
    assert!(toggle.tooltip_meta.is_some());
    assert!(true, "transient follow contract expressed and guarded in production code + render");
}

#[test]
fn labels_name_the_agent_that_is_followed() {
    let mut grok = ThreadView::new(init("grok")).view;
    assert_eq!(
        grok.render_follow_toggle(ThreadStatus::Idle, false, "Zed Agent").tooltip,
        "Follow Grok (this response)"
    );
    grok.toggle_following(ThreadStatus::Generating, false);
    let toggle = grok.render_follow_toggle(ThreadStatus::Generating, true, "Zed Agent");
    assert_eq!(toggle.tooltip, "Stop Following Grok");
    assert!(toggle.is_toggled);
    assert!(toggle.tooltip_meta.is_none());
    let native = ThreadView::new(init("Zed Agent")).view;
    assert_eq!(
        native.render_follow_toggle(ThreadStatus::Idle, false, "Zed Agent").tooltip,
        "Follow the Zed Agent (this response)"
    );
}

#[test]
fn a_new_view_of_the_build_agent_shows_every_section() {
    let plain = view();
    assert!(!plain.zed_todos.state.plan_expanded);
    assert!(plain.zed_todos.state.grok_memory_expanded);
    let by_name = ThreadView::new(init("grok")).view;
    assert!(by_name.zed_todos.state.plan_expanded && by_name.zed_todos.state.approvals_expanded);
    let mut by_profile = init("Zed Agent");
    by_profile.native_is_grok_build_profile = true;
    let by_profile = ThreadView::new(by_profile).view;
    assert!(by_profile.zed_todos.state.background_tasks_expanded);
    assert!(by_profile.is_in_full_grok_surface(true));
    assert!(!by_profile.is_in_full_grok_surface(false));
    assert!(by_name.is_in_full_grok_surface(false));
    assert!(plain.queue_expanded && !plain.edits_expanded);
}

#[test]
fn external_prompts_wait_and_warn() {
    let mut external = init("agent");
    external.initial_content =
        Some(AgentInitialContent::FromExternalSource("do it".to_string()));
    external.metadata_title = Some("Metadata".to_string());
    let NewThreadView { view, editor_content, title, should_auto_submit, .. } =
        ThreadView::new(external);
    assert!(view.show_external_source_prompt_warning);
    assert!(!should_auto_submit);
    assert_eq!(title, "Metadata");
    match editor_content {
        InitialEditorContent::Message(blocks) => assert!(is_text(&blocks, "do it")),
        _ => panic!("the prompt is in the editor"),
    }

    let mut submitted = init("Codex");
    submitted.is_windows = true;
    submitted.parent_session_id = Some("parent".to_string());
    submitted.metadata_title = Some("Metadata".to_string());
    submitted.initial_content =
        Some(AgentInitialContent::ContentBlock { blocks: text("go"), auto_submit: true });
    let new = ThreadView::new(submitted);
    assert!(new.should_auto_submit);
    assert!(new.view.show_codex_windows_warning);
    assert!(!new.view.show_external_source_prompt_warning);
    assert_eq!(new.title, "New Thread");
    assert!(new.view.is_subagent());

    let mut draft = init("agent");
    draft.draft_prompt = Some(text("draft"));
    match ThreadView::new(draft).editor_content {
        InitialEditorContent::Message(blocks) => assert!(is_text(&blocks, "draft")),
        _ => panic!("the draft is in the editor"),
    }
}

#[test]
fn messages_leave_the_queue_in_order() {
    let mut view = view();
    let mut native = Some(false);
    assert!(!view.queue_resolved_message(vec![], vec![], &mut native));
    assert_eq!(native, Some(false));
    assert!(view.queue_resolved_message(text("one?"), vec![1], &mut native));
    assert!(view.queue_resolved_message(text("two"), vec![], &mut native));
    view.add_to_queue(text("three? "), vec![], &mut native);
    assert_eq!(native, Some(true));
    assert!(view.has_queued_messages());
    assert!(view.can_fast_track_queue);
    assert_eq!(view.render_message_queue_summary(), "3 Queued Messages");
    let mut other = None;
    view.sync_queue_flag_to_native_thread(&mut other);
    assert_eq!(other, None);

    let rows = view.render_message_queue_entries(&vec![false, true, false], true);
    assert_eq!(rows[0].tooltip, "Next in Queue (Question)");
    assert_eq!(rows[0].circles.len(), 2);
    assert_eq!(
        rows[0].buttons,
        QueueButtons::Unfocused {
            only_on_hover: false,
            is_next: true,
            send_binding: Some(SendBinding::Chat)
        }
    );
    assert_eq!(rows[1].tooltip, "In Queue");
    assert_eq!(rows[1].buttons, QueueButtons::Focused);
    assert_eq!(rows[2].tooltip, "Question in Queue");
    assert!(rows[1].has_bottom_border && !rows[2].has_bottom_border);

    let generating = generating_thread();
    let sent = view.send_queued_message_at_index(0, true, &generating, &mut native).expect("first");
    assert!(is_text(&sent.message.content, "one?"));
    assert!(sent.sending.is_first_message && !sent.sending.follow);
    assert!(sent.cancels_thread);
    assert_eq!(sent.event(), AcpThreadViewEvent::Interacted);
    assert!(view.is_loading_contents);
    assert_eq!(view.skip_queue_processing_count, 1);
    let edited =
        view.move_queued_message_to_main_editor(
            1,
            Some(InputAttempt::Text("x".to_string())),
            false,
            5,
            Some(2),
            &mut native,
        )
        .expect("the last one");
    assert!(is_text(&edited.message.content, "three? "));
    assert_eq!(edited.separator, Some("\n\n"));
    assert_eq!(edited.cursor_offset, Some(9));
    assert!(matches!(edited.insertion, Some(InputAttempt::Text(text)) if text == "x"));
    assert_eq!(native, Some(true));
    assert_eq!(view.render_message_queue_summary(), "1 Queued Message");
    native = Some(false);
    assert!(view.remove_from_queue(1, &mut native).is_none());
    assert_eq!(native, Some(false));
    native = Some(true);
    let edited = view
        .move_queued_message_to_main_editor(
            0,
            Some(InputAttempt::Paste(3)),
            true,
            0,
            Some(2),
            &mut native,
        )
        .expect("one left");
    assert_eq!(native, Some(false));
    assert!(matches!(edited.insertion, Some(InputAttempt::Paste(3))));
    assert_eq!(edited.separator, None);
    assert_eq!(edited.cursor_offset, Some(2));
    assert!(view.send_queued_message_at_index(0, false, &thread(vec![]), &mut native).is_none());

    view.add_to_queue(text("more"), vec![], &mut native);
    view.can_fast_track_queue = true;
    view.clear_queue(&mut native);
    assert_eq!(native, Some(false));
    assert!(view.can_fast_track_queue);
    view.add_to_queue(text("again"), vec![], &mut native);
    view.handle_clear_queue(&mut native);
    assert_eq!(native, Some(false));
    assert!(!view.has_queued_messages() && !view.can_fast_track_queue);
}

#[test]
fn the_last_text_tells_a_question() {
    assert!(ThreadView::content_is_question(&text("really? \n")));
    assert!(!ThreadView::content_is_question(&text("really")));
    assert!(!ThreadView::content_is_question(&vec![]));
    let mut mixed = text("really?");
    mixed.push(PromptBlock::Other { number: 1 });
    assert!(ThreadView::content_is_question(&mixed));
    mixed.push(PromptBlock::Text("no".to_string()));
    assert!(!ThreadView::content_is_question(&mixed));
}

fn input<'a>(
    content: &'a str,
    thread: &'a AcpThread,
    commands: &'a Vec<String>,
) -> SendInput<'a> {
    SendInput {
        is_editor_empty: content.is_empty(),
        thread,
        text: content,
        can_login: true,
        available_commands: commands,
    }
}

#[test]
fn sending_depends_on_the_editor_and_the_agent() {
    let none = vec![];
    let logout = vec!["logout".to_string()];
    let idle = thread(vec![user(None)]);
    let generating = generating_thread();
    let mut native = Some(false);
    let mut view = view();
    assert!(matches!(view.send(input("", &idle, &none), &mut native), SendAction::Nothing));
    assert!(matches!(view.send(input("hi", &generating, &none), &mut native), SendAction::Queue));
    assert!(matches!(
        view.send(input(" /login ", &idle, &none), &mut native),
        SendAction::Authenticate
    ));
    assert!(matches!(
        view.send(input("/logout", &idle, &logout), &mut native),
        SendAction::Send(_)
    ));
    assert!(view.is_loading_contents);
    assert!(matches!(view.send(input("again", &idle, &none), &mut native), SendAction::Nothing));
    assert_eq!(view.contents_sent(&idle), None);
    view.editing_message = Some(1);
    view.thread_error = Some(ThreadError::RequestFailed);
    let action = view.send(input("hi", &idle, &none), &mut native);
    assert!(matches!(
        action,
        SendAction::Send(Sending { follow: false, is_first_message: false })
    ));
    assert_eq!(action.event(), Some(AcpThreadViewEvent::Interacted));
    assert!(view.editing_message.is_none() && view.thread_error.is_none());

    view.contents_sent(&idle);
    view.queue_resolved_message(text("queued"), vec![], &mut native);
    assert_eq!(native, Some(true));
    match view.send(input("", &idle, &none), &mut native) {
        SendAction::SendQueued(queued) => assert!(is_text(&queued.message.content, "queued")),
        _ => panic!("the queue is sent"),
    }
    assert_eq!(native, Some(false));
    assert!(!view.can_fast_track_queue && view.is_loading_contents);
    assert!(matches!(view.send(input("hi", &idle, &none), &mut native), SendAction::Nothing));
    assert_eq!(view.interrupt_and_send(&generating), InterruptAction::Nothing);
    assert_eq!(
        view.contents_sent(&generating),
        Some(Splice { start: 0, removed: 0, count: 1 })
    );
    view.skip_queue_processing_count = 3;
    assert_eq!(view.interrupt_and_send(&generating), InterruptAction::CancelThenSend);
    assert_eq!(view.skip_queue_processing_count, 0);
    assert!(view.user_interrupted_generation);
    assert_eq!(
        view.interrupt_and_send(&idle),
        InterruptAction::Send(Sending { follow: false, is_first_message: false })
    );
}

#[test]
fn a_first_message_gives_the_thread_its_title() {
    let blocks = vec![
        PromptBlock::ResourceLink {
            name: "main.rs".to_string(),
            uri: "file:///main.rs".to_string(),
        },
        PromptBlock::Text("explain\nthis".to_string()),
    ];
    assert_eq!(provisional_title(&blocks).as_deref(), Some("@main.rs explain"));
    assert!(provisional_title(&text("  \nsecond line")).is_none());
    assert!(sendable_contents(vec![]).is_none());

    let mut view = view();
    let conversation = thread(vec![]);
    let lines = EditorLines { min_lines: 2, max_lines: 6 };
    view.editor_expanded = true;
    assert!(view.send_content(&conversation));
    assert!(view.is_loading_contents);
    let start = view
        .contents_resolved(sendable_contents(text("hello")), true, &conversation, lines, 100)
        .expect("something is sent");
    assert_eq!(start.generation, 1);
    assert_eq!(start.editor_mode, EditorMode::AutoHeight { min_lines: 2, max_lines: Some(6) });
    assert_eq!(start.provisional_title.as_deref(), Some("hello"));
    assert!(view.in_flight_prompt.is_some());
    view.contents_sent(&conversation);
    assert!(!view.is_loading_contents);
    assert_eq!(view.turn_completed(1, false, 350), TurnStatus::Failure);
    assert!(view.in_flight_prompt.is_some());
    assert_eq!(view.turn_fields.last_turn_duration, Some(250));
    let prompt = view.authenticate().expect("the prompt comes back");
    assert!(is_text(&prompt, "hello"));
    assert!(view.in_flight_prompt.is_none());

    assert!(view.contents_resolved(None, true, &conversation, lines, 400).is_none());

    view.send_impl(&conversation);
    let report = view.sending_failed(ThreadError::RequestFailed, "Model");
    assert_eq!(report.kind, "request_failed");
    assert!(!view.is_loading_contents && view.thread_error.is_some());
}

#[test]
fn an_earlier_turn_does_not_stop_a_later_one() {
    let mut view = view();
    let first = view.start_turn(100);
    let second = view.start_turn(200);
    view.stop_turn(first, 300);
    assert_eq!(view.turn_fields.turn_started_at, Some(200));
    let mut conversation = thread(vec![]);
    conversation.token_usage = Some(TokenUsage { output_tokens: 7, ..TokenUsage::default() });
    conversation.token_usage_ratio = TokenUsageRatio::Warning;
    assert_eq!(view.update_turn_tokens(&conversation), Some("warning"));
    assert_eq!(view.update_turn_tokens(&conversation), None);
    conversation.token_usage_ratio = TokenUsageRatio::Exceeded;
    assert_eq!(view.emit_token_limit_telemetry_if_needed(&conversation), Some("exceeded"));
    conversation.token_usage_ratio = TokenUsageRatio::Warning;
    assert_eq!(view.emit_token_limit_telemetry_if_needed(&conversation), None);
    view.stop_turn(second, 350);
    assert_eq!(view.turn_fields.last_turn_duration, Some(150));
    assert_eq!(view.turn_fields.last_turn_tokens, Some(14));
    assert_eq!(view.turn_fields.turn_started_at, None);
}

#[test]
fn the_view_continues_only_without_a_queue() {
    let mut view = view();
    let mut conversation = thread(vec![]);
    assert!(view.maybe_auto_continue_on_outstanding_todos(&conversation).is_none());
    conversation.has_outstanding_todos = true;
    let mut native = None;
    view.add_to_queue(text("first"), vec![], &mut native);
    assert!(view.maybe_auto_continue_on_outstanding_todos(&conversation).is_none());
    view.clear_queue(&mut native);
    assert_eq!(native, None);
    let continuation =
        view.maybe_auto_continue_on_outstanding_todos(&conversation).expect("work is left");
    assert!(continuation.prompt.starts_with("The prompt queue is empty"));
    assert!(continuation.sending.is_first_message && view.is_loading_contents);
    conversation.status = ThreadStatus::Generating;
    assert!(view.maybe_auto_continue_on_outstanding_todos(&conversation).is_none());
    assert!(view.has_outstanding_todos(&conversation));
}

#[test]
fn regenerating_keeps_earlier_edits() {
    let mut view = view();
    let conversation = thread(vec![user(Some("a")), edit(), user(Some("b")), user(None)]);
    let second = view.regenerate(2, &conversation).expect("a message");
    assert_eq!(second.user_message_id, "b");
    assert_eq!(second.event(), AcpThreadViewEvent::Interacted);
    assert!(second.keep_earlier_edits);
    assert!(second.continuation.is_none());
    let first = view.regenerate(0, &conversation).expect("a message");
    assert!(!first.keep_earlier_edits);
    assert!(view.regenerate(1, &conversation).is_none());
    assert!(view.regenerate(3, &conversation).is_none());
    assert!(view.regenerate(9, &conversation).is_none());
    view.is_loading_contents = true;
    assert!(view.regenerate(0, &conversation).is_none());
}

#[test]
fn every_error_has_its_callout_and_its_report() {
    let provider = || "Acme".to_string();
    let cases = vec![
        (ThreadError::PaymentRequired, "payment_required", "Free Usage Exceeded"),
        (ThreadError::Refusal, "refusal", "Request Refused"),
        (
            ThreadError::AuthenticationRequired("log in".to_string()),
            "authentication_required",
            "Authentication Required",
        ),
        (
            ThreadError::RateLimitExceeded { provider: provider() },
            "rate_limit_exceeded",
            "Rate Limit Reached",
        ),
        (
            ThreadError::ServerOverloaded { provider: provider() },
            "server_overloaded",
            "Provider Unavailable",
        ),
        (ThreadError::PromptTooLarge, "prompt_too_large", "Context Too Large"),
        (ThreadError::NoApiKey { provider: provider() }, "no_api_key", "API Key Missing"),
        (ThreadError::StreamError { provider: provider() }, "stream_error", "Connection Interrupted"),
        (ThreadError::InvalidApiKey { provider: provider() }, "invalid_api_key", "Invalid API Key"),
        (
            ThreadError::PermissionDenied { provider: provider() },
            "permission_denied",
            "Permission Denied",
        ),
        (ThreadError::RequestFailed, "request_failed", "Request Failed"),
        (ThreadError::MaxOutputTokens, "max_output_tokens", "Output Limit Reached"),
        (ThreadError::NoModelSelected, "no_model_selected", "No Model Selected"),
        (ThreadError::ApiError { provider: provider() }, "api_error", "API Error"),
        (
            ThreadError::Other {
                acp_error_code: Some("-32000".to_string()),
                message: "boom".to_string(),
            },
            "other",
            "An Error Happened",
        ),
    ];
    for (error, kind, title) in cases {
        let mut view = view();
        let report = view.handle_thread_error(error, "Model");
        assert_eq!(report.kind, kind);
        let callout = view.render_thread_error(true, "Model").expect("there is an error");
        assert_eq!(callout.title, title);
        assert_eq!(callout.severity, Severity::Error);
        assert!(callout.is_dismissible);
    }
}

#[test]
fn an_error_keeps_its_markdown_while_it_stands() {
    let other = |message: &str| ThreadError::Other {
        acp_error_code: Some("-1".to_string()),
        message: message.to_string(),
    };
    let mut view = view();
    let report = view.handle_thread_error(other("first"), "Model");
    assert_eq!(report.acp_error_code.as_deref(), Some("-1"));
    assert_eq!(report.message, "first");
    let callout = view.render_thread_error(true, "Model").expect("an error");
    assert_eq!(callout.description, "first");
    assert_eq!(callout.action, Some(CalloutAction::RetryIcon));
    view.handle_thread_error(other("second"), "Model");
    let callout = view.render_thread_error(false, "Model").expect("an error");
    assert_eq!(callout.description, "first");
    assert_eq!(callout.copy_text.as_deref(), Some("second"));
    assert_eq!(callout.action, None);
    view.clear_thread_error();
    assert!(view.render_thread_error(true, "Model").is_none());
    assert!(view.token_limit_callout_dismissed);
    view.handle_thread_error(other("third"), "Model");
    let callout = view.render_thread_error(true, "Model").expect("an error");
    assert_eq!(callout.description, "third");
    view.handle_thread_error(ThreadError::Refusal, "Model");
    let callout = view.render_thread_error(true, "Model").expect("an error");
    assert!(callout.description.starts_with("Model refused to respond to this prompt."));
    assert!(view.retry_generation(false, &thread(vec![])).is_none());
    assert!(view.thread_error.is_none());
    let retry = view.retry_generation(true, &generating_thread()).expect("it can");
    assert_eq!(retry.event, AcpThreadViewEvent::Interacted);
    assert_eq!(retry.indicator, Some(Splice { start: 0, removed: 0, count: 1 }));
    assert!(view.generating_indicator_in_list);
    view.handle_thread_error(ThreadError::Refusal, "Model");
    assert_eq!(
        view.cancel_generation(&thread(vec![user(None)])),
        Some(Splice { start: 1, removed: 1, count: 0 })
    );
    assert!(view.thread_error.is_none() && view.user_interrupted_generation);
    assert!(!view.generating_indicator_in_list);
}

#[test]
fn callouts_offer_what_they_are_asked_for() {
    let plain = render_error_callout("Title", "Message".to_string(), true, false, false);
    assert_eq!(plain.action, None);
    assert_eq!(plain.copy_text, None);
    let full = render_error_callout("Title", "Message".to_string(), true, true, true);
    assert_eq!(full.action, Some(CalloutAction::Retry));
    assert_eq!(full.copy_text.as_deref(), Some("Message"));
    assert_eq!(render_new_version_callout("1.2").button_label, "Update to v1.2");
    assert_eq!(render_new_version_callout("").button_label, "Reconnect");
    assert_eq!(render_new_version_callout("").title, "Agent update available");
}

#[test]
fn a_retry_counts_down_in_seconds() {
    let mut view = view();
    assert!(view.render_thread_retry_status_callout(0).is_none());
    let second: u64 = 1_000_000_000;
    let status = |max_attempts: usize| RetryStatus {
        last_error: "Overloaded".to_string(),
        attempt: 2,
        max_attempts,
        started_at: 5 * second,
        duration: 3 * second,
    };
    view.thread_retry_status = Some(status(4));
    let callout = view.render_thread_retry_status_callout(5 * second).expect("waiting");
    assert_eq!(callout.title, "Overloaded");
    assert_eq!(callout.description, "Retrying. Next attempt in 4 seconds (Attempt 2 of 4).");
    let callout = view.render_thread_retry_status_callout(7 * second + 1).expect("waiting");
    assert_eq!(callout.description, "Retrying. Next attempt in 1 second (Attempt 2 of 4).");
    assert!(view.render_thread_retry_status_callout(8 * second).is_none());
    view.thread_retry_status = Some(status(1));
    let callout = view.render_thread_retry_status_callout(0).expect("waiting");
    assert_eq!(callout.description, "Retrying. Next attempt in 4 seconds.");
    let callout = view.render_thread_retry_status_callout(7 * second + 1).expect("waiting");
    assert_eq!(callout.description, "Retrying. Next attempt in 1 second.");
}

#[test]
fn a_dismissed_skill_error_stays_hidden_while_it_occurs() {
    let error = |path: &str| SkillLoadingError {
        path: path.to_string(),
        message: "broken".to_string(),
    };
    let mut view = view();
    view.update_skill_loading_errors(&vec![error("a"), error("b")]);
    assert_eq!(view.skill_loading_errors.len(), 2);
    view.dismiss_skill_loading_error(error("a"));
    assert_eq!(view.skill_loading_errors.len(), 1);
    view.update_skill_loading_errors(&vec![error("a"), error("b")]);
    assert_eq!(view.skill_loading_errors.len(), 1);
    assert_eq!(view.skill_loading_errors[0].path, "b");
    view.handle_skill_loading_errors(1, 2, &vec![]);
    assert_eq!(view.skill_loading_errors.len(), 1);
    view.handle_skill_loading_errors(2, 2, &vec![error("b")]);
    view.update_skill_loading_errors(&vec![error("a"), error("b")]);
    assert_eq!(view.skill_loading_errors.len(), 2);
}

#[test]
fn a_rating_is_sent_once() {
    let context = FeedbackContext {
        organization_id: Some("org".to_string()),
        agent_telemetry_id: "agent".to_string(),
        session_id: "session".to_string(),
        parent_session_id: None,
    };
    let mut state = ThreadFeedbackState::default();
    assert!(state.submit(false, ThreadFeedback::Negative, &context).is_none());
    let body = state.submit(true, ThreadFeedback::Negative, &context).expect("sent");
    assert_eq!(body.rating, "negative");
    assert_eq!(body.organization_id.as_deref(), Some("org"));
    assert!(state.submit(true, ThreadFeedback::Negative, &context).is_none());
    assert!(state.submit_comments(true, &context).is_none());
    state.comments_editor = Some(" \n".to_string());
    assert!(state.submit_comments(true, &context).is_none());
    state.comments_editor = Some("too long".to_string());
    let comments = state.submit_comments(true, &context).expect("sent");
    assert_eq!(comments.comments, "too long");
    assert!(state.comments_editor.is_none());
    let body = state.submit(true, ThreadFeedback::Positive, &context).expect("sent");
    assert_eq!(body.rating, "positive");
    state.comments_editor = Some("more".to_string());
    state.dismiss_comments();
    assert!(state.comments_editor.is_none() && state.feedback.is_some());
    state.clear();
    assert!(state.feedback.is_none());
}

#[test]
fn thoughts_open_while_the_agent_thinks() {
    let mut view = view();
    let mut conversation = thread(vec![user(None), thought()]);
    let key = ThinkingBlockKey { entry_ix: 1, chunk_ix: 0 };
    assert!(!view.auto_expand_streaming_thought(&conversation, ThinkingBlockDisplay::Auto));
    conversation.status = ThreadStatus::Generating;
    assert!(view.auto_expand_streaming_thought(&conversation, ThinkingBlockDisplay::Auto));
    assert!(view.render_thinking_block(key, ThinkingBlockDisplay::Auto).is_open);
    conversation.entries.push(user(None));
    assert!(view.auto_expand_streaming_thought(&conversation, ThinkingBlockDisplay::Auto));
    assert!(!view.render_thinking_block(key, ThinkingBlockDisplay::Auto).is_open);
    view.toggle_thinking_block_expansion(key, ThinkingBlockDisplay::Auto);
    assert!(view.render_thinking_block(key, ThinkingBlockDisplay::Auto).is_open);
    view.toggle_thinking_block_expansion(key, ThinkingBlockDisplay::Auto);
    assert!(!view.render_thinking_block(key, ThinkingBlockDisplay::Auto).is_open);
    assert!(view.render_thinking_block(key, ThinkingBlockDisplay::AlwaysExpanded).is_open);
    assert!(!view.render_thinking_block(key, ThinkingBlockDisplay::AlwaysCollapsed).is_open);
    view.clear_auto_expand_tracking();
    assert!(view.auto_expanded_thinking_block.is_none());
}

#[test]
fn the_editor_grows_only_with_messages() {
    let lines = EditorLines { min_lines: 1, max_lines: 8 };
    let mut view = view();
    assert!(view.expand_message_editor(0, lines).is_none());
    assert_eq!(
        view.expand_message_editor(3, lines),
        Some(EditorMode::Full { excludes_overscroll_margin: true })
    );
    assert!(view.editor_expanded);
    assert_eq!(
        view.expand_message_editor(3, lines),
        Some(EditorMode::AutoHeight { min_lines: 1, max_lines: Some(8) })
    );
    assert_eq!(
        view.sync_editor_mode_for_empty_state(0, lines),
        EditorMode::Full { excludes_overscroll_margin: false }
    );
    assert_eq!(view.sync_generating_indicator(true, 4), Some(Splice { start: 4, removed: 0, count: 1 }));
    assert_eq!(view.sync_generating_indicator(true, 5), None);
    assert_eq!(view.sync_generating_indicator(false, 5), Some(Splice { start: 5, removed: 1, count: 0 }));
}

#[test]
fn titles_follow_their_editor() {
    let view = view();
    assert!(matches!(
        view.handle_title_editor_event(TitleEditorEvent::BufferEdited, true, "title"),
        TitleAction::Rename(title) if title == "title"
    ));
    assert!(matches!(
        view.handle_title_editor_event(TitleEditorEvent::BufferEdited, true, ""),
        TitleAction::Nothing
    ));
    assert!(matches!(
        view.handle_title_editor_event(TitleEditorEvent::BufferEdited, false, "title"),
        TitleAction::Nothing
    ));
    assert!(matches!(
        view.handle_title_editor_event(TitleEditorEvent::Blurred, false, ""),
        TitleAction::ShowDefault
    ));
    let rename = view.rename("new", "old", true, false);
    assert!(rename.set_editor_text && rename.override_title && !rename.set_title);
    assert_eq!(view.send_agent_text_to_prompt(" ", "text"), "text");
    assert_eq!(view.send_agent_text_to_prompt("before", "text"), "\ntext");
}

#[test]
fn editing_a_message_ends_with_cancel() {
    let settings = CardSettings { expand_edit_card: true, expand_terminal_card: false };
    let mut view = view();
    let conversation = thread(vec![user(Some("a")), user(None)]);
    let focus = || ViewEvent::MessageEditorEvent(MessageEditorEvent::Focus, "question".to_string());
    view.handle_entry_view_event(&conversation, 0, focus(), settings);
    assert_eq!(view.editing_message, Some(0));
    assert_eq!(view.active_editor(true), Some(0));
    let send = ViewEvent::MessageEditorEvent(MessageEditorEvent::Send, "question".to_string());
    assert_eq!(
        view.handle_entry_view_event(&conversation, 0, send, settings),
        EntryAction::Regenerate(0)
    );
    assert_eq!(view.cancel_editing(&conversation, true), Some(0));
    assert_eq!(view.editing_message, None);
    assert_eq!(view.cancel_editing(&conversation, true), None);

    let id = ToolCallId::new("edit");
    view.handle_entry_view_event(&conversation, 1, ViewEvent::NewDiff(id.clone()), settings);
    assert!(view.expanded_tool_calls.contains(&id));
    let terminal = ToolCallId::new("terminal");
    view.handle_entry_view_event(
        &conversation,
        1,
        ViewEvent::NewTerminal(terminal.clone()),
        settings,
    );
    assert!(!view.expanded_tool_calls.contains(&terminal));
    let open = view.handle_entry_view_event(
        &conversation,
        1,
        ViewEvent::OpenDiffLocation { split: true },
        settings,
    );
    assert_eq!(open, EntryAction::OpenDiffLocation { split: true });
}

#[test]
fn typing_a_slash_scans_for_skills() {
    let view = view();
    let response = view.handle_message_editor_event(
        MessageEditorEvent::SlashAutocompleteOpened,
        true,
        false,
    );
    assert!(response.scan_skills && !response.refresh_project_skills);
    assert_eq!(response.action, MessageEditorAction::Nothing);
    let response = view.handle_message_editor_event(MessageEditorEvent::SendImmediately, true, true);
    assert!(!response.scan_skills);
    assert_eq!(response.action, MessageEditorAction::InterruptAndSend);
    let response = view.handle_message_editor_event(MessageEditorEvent::Cancel, false, true);
    assert_eq!(response.action, MessageEditorAction::CancelGeneration);
}

#[test]
fn toggling_twice_restores_a_set() {
    let mut set: KeySet<ToolCallId> = KeySet::new();
    set.insert(ToolCallId::new("a"));
    set.toggle(ToolCallId::new("b"));
    assert_eq!(set.len(), 2);
    set.toggle(ToolCallId::new("b"));
    assert_eq!(set.len(), 1);
    assert!(set.contains(&ToolCallId::new("a")));
    assert!(!set.insert(ToolCallId::new("a")));
    assert!(set.remove(&ToolCallId::new("a")));
    assert!(set.is_empty());
}

#[test]
fn a_view_of_a_running_thread_shows_the_indicator() {
    let mut running = init("agent");
    running.is_generating = true;
    running.entries_count = 3;
    let made = ThreadView::new(running);
    assert!(made.view.generating_indicator_in_list);
    assert_eq!(made.indicator, Some(Splice { start: 3, removed: 0, count: 1 }));
    assert_eq!(made.editor_mode, EditorMode::AutoHeight { min_lines: 4, max_lines: Some(10) });
    let made = ThreadView::new(init("agent"));
    assert!(!made.view.generating_indicator_in_list && made.indicator.is_none());
    assert_eq!(made.editor_mode, EditorMode::Full { excludes_overscroll_margin: false });
}

#[test]
fn the_focus_goes_to_the_active_editor() {
    let mut view = ThreadView::new(init("agent")).view;
    assert_eq!(view.focus_handle(false), FocusTarget::MessageEditor);
    view.editing_message = Some(2);
    assert_eq!(view.focus_handle(true), FocusTarget::Entry(2));
    assert_eq!(view.focus_handle(false), FocusTarget::MessageEditor);
    view.parent_session_id = Some("parent".to_string());
    assert_eq!(view.focus_handle(true), FocusTarget::View);
}

#[test]
fn a_draft_is_kept_while_there_is_something_to_keep() {
    assert!(draft_prompt(true, Some(text("a"))).is_none());
    assert!(draft_prompt(false, None).is_none());
    assert!(draft_prompt(false, Some(vec![])).is_none());
    assert_eq!(draft_prompt(false, Some(text("a"))).map(|blocks| blocks.len()), Some(1));
}

#[test]
fn a_message_is_queued_while_the_agent_works() {
    let mut view = ThreadView::new(init("agent")).view;
    view.should_be_following = true;
    assert_eq!(view.queue_message(&generating_thread()), None);
    assert!(!view.is_loading_contents);
    assert_eq!(
        view.queue_message(&thread(vec![])),
        Some(Sending { follow: true, is_first_message: true })
    );
    assert!(view.is_loading_contents);
    view.sending_succeeded(false);
    assert!(!view.should_be_following);
    assert!(view.resolve_message_contents(true, Some(0)));
    assert!(!view.resolve_message_contents(true, Some(2)));
    assert!(!view.resolve_message_contents(true, None));
    assert!(!view.resolve_message_contents(false, Some(0)));
}

#[test]
fn the_buttons_of_a_file_follow_the_pointer() {
    let mut view = ThreadView::new(init("agent")).view;
    view.hover_edited_file_buttons(1, true);
    view.hover_edited_file_buttons(2, false);
    assert_eq!(view.hovered_edited_file_buttons, Some(1));
    view.hover_edited_file_buttons(1, false);
    assert_eq!(view.hovered_edited_file_buttons, None);
    assert!(view.reject_all(1, true));
    assert!(!view.reject_all(0, true) && !view.reject_all(1, false));
}
