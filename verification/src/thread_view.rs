//! The state of a thread view.

use crate::callouts::{RetryStatus, SkillLoadingError, ThreadError};
use crate::editing::{EditorLines, EditorMode, Splice};
use crate::editing;
use crate::feedback::ThreadFeedbackState;
use crate::keyed::{KeyMap, KeySet};
use crate::model::{PromptBlock, TokenUsageRatio, ToolCallId};
use crate::permissions::PermissionSelection;
use crate::text;
use crate::thinking::ThinkingBlockKey;
use crate::turn::TurnFields;
use crate::zed_todos::ZedTodosComponent;
use vstd::prelude::*;
use vstd::string::*;

verus! {

/// What a thread view tells its owner.
#[derive(Clone, Copy, PartialEq, Eq, Structural, Debug)]
pub enum AcpThreadViewEvent {
    Interacted,
}

/// A message that is sent once the agent is idle.
pub struct QueuedMessage {
    pub content: Vec<PromptBlock>,
    /// The identifiers of the buffers that the message mentions.
    pub tracked_buffers: Vec<u64>,
}

/// The state of a thread view.
pub struct ThreadView {
    pub session_id: String,
    pub parent_session_id: Option<String>,
    pub agent_id: String,
    pub thread_retry_status: Option<RetryStatus>,
    pub thread_error: Option<ThreadError>,
    /// The Markdown that is shown for an error, kept while the error stands.
    pub thread_error_markdown: Option<String>,
    pub token_limit_callout_dismissed: bool,
    pub last_token_limit_telemetry: Option<TokenUsageRatio>,
    pub thread_feedback: ThreadFeedbackState,
    /// The tool calls whose content is expanded.
    pub expanded_tool_calls: KeySet<ToolCallId>,
    pub expanded_tool_call_raw_inputs: KeySet<ToolCallId>,
    pub expanded_thinking_blocks: KeySet<ThinkingBlockKey>,
    pub auto_expanded_thinking_block: Option<ThinkingBlockKey>,
    pub user_toggled_thinking_blocks: KeySet<ThinkingBlockKey>,
    pub edits_expanded: bool,
    pub queue_expanded: bool,
    pub zed_todos: ZedTodosComponent,
    pub editor_expanded: bool,
    pub should_be_following: bool,
    /// Whether the view follows the agent for the current response only.
    pub follow_only_until_response_ends: bool,
    pub editing_message: Option<usize>,
    pub local_queued_messages: Vec<QueuedMessage>,
    pub turn_fields: TurnFields,
    pub discarded_partial_edits: KeySet<ToolCallId>,
    pub is_loading_contents: bool,
    pub new_server_version_available: Option<String>,
    pub resumed_without_history: bool,
    pub permission_selections: KeyMap<ToolCallId, PermissionSelection>,
    pub skip_queue_processing_count: usize,
    pub user_interrupted_generation: bool,
    pub can_fast_track_queue: bool,
    pub hovered_edited_file_buttons: Option<usize>,
    pub in_flight_prompt: Option<Vec<PromptBlock>>,
    pub show_external_source_prompt_warning: bool,
    pub show_codex_windows_warning: bool,
    pub multi_root_callout_dismissed: bool,
    pub generating_indicator_in_list: bool,
    pub skill_loading_errors: Vec<SkillLoadingError>,
    /// The errors that the user has dismissed and that still occur.
    pub dismissed_skill_loading_errors: KeySet<SkillLoadingError>,
}

/// What a new thread starts with.
pub enum AgentInitialContent {
    ThreadSummary { session_id: String, title: Option<String> },
    ContentBlock { blocks: Vec<PromptBlock>, auto_submit: bool },
    FromExternalSource(String),
}

/// What is put into the message editor of a new view.
pub enum InitialEditorContent {
    Nothing,
    ThreadSummary { session_id: String, title: Option<String> },
    Message(Vec<PromptBlock>),
}

/// What a new view is made from.
pub struct ThreadViewInit {
    pub session_id: String,
    pub parent_session_id: Option<String>,
    pub agent_id: String,
    /// Whether the native thread uses the build profile.
    pub native_is_grok_build_profile: bool,
    pub resumed_without_history: bool,
    pub initial_content: Option<AgentInitialContent>,
    pub draft_prompt: Option<Vec<PromptBlock>>,
    pub is_windows: bool,
    /// Whether the project is there and local.
    pub project_is_local: bool,
    /// The title in the metadata of the root thread.
    pub metadata_title: Option<String>,
    pub thread_title: Option<String>,
    /// The title of a thread without one.
    pub default_title: String,
    pub is_generating: bool,
    /// The number of entries, each of which has an item in the list.
    pub entries_count: usize,
    pub editor_lines: EditorLines,
}

/// A new view, and what is to be done with it.
pub struct NewThreadView {
    pub view: ThreadView,
    pub editor_content: InitialEditorContent,
    pub title: String,
    /// Whether the message in the editor is sent at once.
    pub should_auto_submit: bool,
    /// The part of the list that is replaced so that it shows the indicator or not.
    pub indicator: Option<Splice>,
    pub editor_mode: EditorMode,
}

/// Whether the agent is the build agent: by its name, or by the profile of the thread.
pub open spec fn is_grok(agent_id: Seq<char>, native_is_grok_build_profile: bool) -> bool {
    agent_id == "grok"@ || native_is_grok_build_profile
}

/// Whether nothing of the view was changed yet, apart from what it is made from.
pub open spec fn untouched(view: ThreadView) -> bool {
    &&& view.thread_retry_status is None
    &&& view.thread_error is None
    &&& view.thread_error_markdown is None
    &&& !view.token_limit_callout_dismissed
    &&& view.last_token_limit_telemetry is None
    &&& view.thread_feedback == (ThreadFeedbackState { feedback: None, comments_editor: None })
    &&& view.expanded_tool_calls@ == Set::<Seq<char>>::empty()
    &&& view.expanded_tool_call_raw_inputs@ == Set::<Seq<char>>::empty()
    &&& view.expanded_thinking_blocks@ == Set::<ThinkingBlockKey>::empty()
    &&& view.auto_expanded_thinking_block is None
    &&& view.user_toggled_thinking_blocks@ == Set::<ThinkingBlockKey>::empty()
    &&& !view.edits_expanded
    &&& view.queue_expanded
    &&& view.zed_todos.state.expanded_background_monitors@ == Set::<Seq<char>>::empty()
    &&& !view.editor_expanded
    &&& !view.should_be_following
    &&& !view.follow_only_until_response_ends
    &&& view.editing_message is None
    &&& view.local_queued_messages@.len() == 0
    &&& view.turn_fields == (TurnFields {
        turn_timer_running: false,
        last_turn_duration: None,
        last_turn_tokens: None,
        turn_generation: 0,
        turn_started_at: None,
        turn_tokens: None,
    })
    &&& view.discarded_partial_edits@ == Set::<Seq<char>>::empty()
    &&& !view.is_loading_contents
    &&& view.new_server_version_available is None
    &&& view.permission_selections@ == Map::<Seq<char>, PermissionSelection>::empty()
    &&& view.skip_queue_processing_count == 0
    &&& !view.user_interrupted_generation
    &&& !view.can_fast_track_queue
    &&& view.hovered_edited_file_buttons is None
    &&& view.in_flight_prompt is None
    &&& !view.multi_root_callout_dismissed
    &&& view.skill_loading_errors@.len() == 0
    &&& view.dismissed_skill_loading_errors@ == Set::<(Seq<char>, Seq<char>)>::empty()
}

/// What goes into the message editor of a new view: the initial content, else the draft.
pub open spec fn initial_content_is(
    content: InitialEditorContent,
    initial: Option<AgentInitialContent>,
    draft: Option<Vec<PromptBlock>>,
) -> bool {
    match initial {
        Some(AgentInitialContent::ThreadSummary { session_id, title }) => content
            == (InitialEditorContent::ThreadSummary { session_id, title }),
        Some(AgentInitialContent::ContentBlock { blocks, .. }) => content
            == InitialEditorContent::Message(blocks),
        Some(AgentInitialContent::FromExternalSource(prompt)) => content matches
            InitialEditorContent::Message(blocks) && blocks@ == seq![PromptBlock::Text(prompt)],
        None => match draft {
            Some(blocks) => content == InitialEditorContent::Message(blocks),
            None => content == InitialEditorContent::Nothing,
        },
    }
}

impl ThreadView {
    /// A new view. The sections of the todos surface start expanded for the build agent. A
    /// prompt from an external source is never sent on its own, and comes with a warning.
    pub fn new(init: ThreadViewInit) -> (r: NewThreadView)
        ensures
            untouched(r.view),
            r.view.session_id == init.session_id,
            r.view.parent_session_id == init.parent_session_id,
            r.view.agent_id == init.agent_id,
            r.view.resumed_without_history == init.resumed_without_history,
            is_grok(init.agent_id@, init.native_is_grok_build_profile)
                ==> r.view.zed_todos.state.all_expanded(),
            !is_grok(init.agent_id@, init.native_is_grok_build_profile) ==> {
                &&& !r.view.zed_todos.state.approvals_expanded
                &&& !r.view.zed_todos.state.plan_expanded
                &&& !r.view.zed_todos.state.background_tasks_expanded
                &&& r.view.zed_todos.state.grok_memory_expanded
            },
            r.view.show_external_source_prompt_warning == (init.initial_content matches Some(
                AgentInitialContent::FromExternalSource(_),
            )),
            r.view.show_codex_windows_warning == (init.is_windows && init.project_is_local
                && init.agent_id@ == "Codex"@),
            initial_content_is(r.editor_content, init.initial_content, init.draft_prompt),
            r.should_auto_submit == (init.initial_content matches Some(
                AgentInitialContent::ContentBlock { auto_submit, .. },
            ) && auto_submit),
            r.title@ == text::text_or(
                if init.parent_session_id is None {
                    init.metadata_title
                } else {
                    init.thread_title
                },
                init.default_title@,
            ),
            r.view.generating_indicator_in_list == init.is_generating,
            r.indicator == editing::indicator_splice(
                false,
                init.is_generating,
                init.entries_count,
            ),
            r.editor_mode == editing::empty_state_mode(
                (init.entries_count + editing::indicator_items(init.is_generating)) as nat,
                init.editor_lines,
            ),
    {
        let is_grok_for_default = text::same_text(init.agent_id.as_str(), "grok")
            || init.native_is_grok_build_profile;
        let show_codex_windows_warning = init.is_windows && init.project_is_local
            && text::same_text(init.agent_id.as_str(), "Codex");
        let is_root = init.parent_session_id.is_none();
        let ThreadViewInit {
            session_id,
            parent_session_id,
            agent_id,
            native_is_grok_build_profile: _,
            resumed_without_history,
            initial_content,
            draft_prompt,
            is_windows: _,
            project_is_local: _,
            metadata_title,
            thread_title,
            default_title,
            is_generating,
            entries_count,
            editor_lines,
        } = init;
        let mut should_auto_submit = false;
        let mut show_external_source_prompt_warning = false;
        let editor_content = match initial_content {
            Some(AgentInitialContent::ThreadSummary { session_id, title }) =>
                InitialEditorContent::ThreadSummary { session_id, title },
            Some(AgentInitialContent::ContentBlock { blocks, auto_submit }) => {
                should_auto_submit = auto_submit;
                InitialEditorContent::Message(blocks)
            },
            Some(AgentInitialContent::FromExternalSource(prompt)) => {
                show_external_source_prompt_warning = true;
                let mut blocks: Vec<PromptBlock> = Vec::new();
                blocks.push(PromptBlock::Text(prompt));
                assert(blocks@ =~= seq![PromptBlock::Text(prompt)]);
                InitialEditorContent::Message(blocks)
            },
            None => match draft_prompt {
                Some(blocks) => InitialEditorContent::Message(blocks),
                None => InitialEditorContent::Nothing,
            },
        };
        let known_title = if is_root {
            metadata_title
        } else {
            thread_title
        };
        let title = match known_title {
            Some(title) => title,
            None => default_title,
        };
        let mut zed_todos = ZedTodosComponent::new();
        if is_grok_for_default {
            zed_todos.state.expand_all();
        }
        let mut view = ThreadView {
            session_id,
            parent_session_id,
            agent_id,
            thread_retry_status: None,
            thread_error: None,
            thread_error_markdown: None,
            token_limit_callout_dismissed: false,
            last_token_limit_telemetry: None,
            thread_feedback: ThreadFeedbackState::default(),
            expanded_tool_calls: KeySet::new(),
            expanded_tool_call_raw_inputs: KeySet::new(),
            expanded_thinking_blocks: KeySet::new(),
            auto_expanded_thinking_block: None,
            user_toggled_thinking_blocks: KeySet::new(),
            edits_expanded: false,
            queue_expanded: true,
            zed_todos,
            editor_expanded: false,
            should_be_following: false,
            follow_only_until_response_ends: false,
            editing_message: None,
            local_queued_messages: Vec::new(),
            turn_fields: TurnFields::default(),
            discarded_partial_edits: KeySet::new(),
            is_loading_contents: false,
            new_server_version_available: None,
            resumed_without_history,
            permission_selections: KeyMap::new(),
            skip_queue_processing_count: 0,
            user_interrupted_generation: false,
            can_fast_track_queue: false,
            hovered_edited_file_buttons: None,
            in_flight_prompt: None,
            show_external_source_prompt_warning,
            show_codex_windows_warning,
            multi_root_callout_dismissed: false,
            generating_indicator_in_list: false,
            skill_loading_errors: Vec::new(),
            dismissed_skill_loading_errors: KeySet::new(),
        };
        let indicator = view.sync_generating_indicator(is_generating, entries_count);
        let item_count: usize = if is_generating {
            entries_count.saturating_add(1)
        } else {
            entries_count
        };
        let editor_mode = view.sync_editor_mode_for_empty_state(item_count, editor_lines);
        NewThreadView { view, editor_content, title, should_auto_submit, indicator, editor_mode }
    }

    /// Whether the view shows a thread of a subagent.
    pub fn is_subagent(&self) -> (r: bool)
        ensures
            r == (self.parent_session_id is Some),
    {
        self.parent_session_id.is_some()
    }

    /// Whether the agent is the build agent: by its name, or by the profile of the thread.
    pub fn is_grok_build_profile(&self, native_is_grok_build_profile: bool) -> (r: bool)
        ensures
            r == is_grok(self.agent_id@, native_is_grok_build_profile),
    {
        text::same_text(self.agent_id.as_str(), "grok") || native_is_grok_build_profile
    }

    /// Whether the agent is the build agent and a section of the todos surface is expanded.
    pub fn is_in_full_grok_surface(&self, native_is_grok_build_profile: bool) -> (r: bool)
        ensures
            r == in_full_grok_surface(*self, native_is_grok_build_profile),
    {
        if !self.is_grok_build_profile(native_is_grok_build_profile) {
            return false;
        }
        let state = &self.zed_todos.state;
        state.approvals_expanded || state.plan_expanded || state.background_tasks_expanded
            || state.grok_memory_expanded
    }
}

/// Whether the agent is the build agent and a section of the todos surface is expanded.
pub open spec fn in_full_grok_surface(
    view: ThreadView,
    native_is_grok_build_profile: bool,
) -> bool {
    let state = view.zed_todos.state;
    &&& is_grok(view.agent_id@, native_is_grok_build_profile)
    &&& state.approvals_expanded || state.plan_expanded || state.background_tasks_expanded
        || state.grok_memory_expanded
}

/// The build agent is told by its name or by the profile of its thread, and by nothing else.
pub proof fn the_build_agent_has_a_name_or_a_profile(agent_id: Seq<char>, has_profile: bool)
    ensures
        has_profile ==> is_grok(agent_id, has_profile),
        !has_profile ==> (is_grok(agent_id, has_profile) <==> agent_id == seq![
            'g',
            'r',
            'o',
            'k',
        ]),
{
    reveal_strlit("grok");
    assert("grok"@ =~= seq!['g', 'r', 'o', 'k']);
}

/// A new view shows no error, waits for nothing, follows nothing and has nothing expanded but
/// the queue.
pub proof fn a_new_view_starts_with_nothing(view: ThreadView, id: Seq<char>)
    requires
        untouched(view),
    ensures
        view.thread_error is None && view.thread_retry_status is None && view.thread_error_markdown
            is None,
        !view.is_loading_contents && view.local_queued_messages@.len() == 0
            && view.in_flight_prompt is None,
        !view.should_be_following && !view.follow_only_until_response_ends,
        view.editing_message is None && !view.editor_expanded,
        !view.expanded_tool_calls@.contains(id) && !view.expanded_tool_call_raw_inputs@.contains(
            id,
        ) && !view.discarded_partial_edits@.contains(id)
            && !view.zed_todos.state.expanded_background_monitors@.contains(id),
        !view.permission_selections@.dom().contains(id),
        !view.edits_expanded && view.queue_expanded,
        !view.can_fast_track_queue && view.skip_queue_processing_count == 0
            && !view.user_interrupted_generation,
        view.turn_fields.turn_generation == 0 && view.turn_fields.turn_started_at is None
            && view.turn_fields.turn_tokens is None && !view.turn_fields.turn_timer_running
            && view.turn_fields.last_turn_duration is None && view.turn_fields.last_turn_tokens
            is None,
        view.thread_feedback.feedback is None && view.thread_feedback.comments_editor is None,
        !view.token_limit_callout_dismissed && !view.multi_root_callout_dismissed
            && view.last_token_limit_telemetry is None,
        view.skill_loading_errors@.len() == 0 && view.new_server_version_available is None
            && view.hovered_edited_file_buttons is None && view.auto_expanded_thinking_block
            is None,
        forall|key: ThinkingBlockKey|
            !#[trigger] view.expanded_thinking_blocks@.contains(key)
                && !view.user_toggled_thinking_blocks@.contains(key),
        forall|key: (Seq<char>, Seq<char>)|
            !#[trigger] view.dismissed_skill_loading_errors@.contains(key),
{
}

/// The editor of a new view holds what the thread was started with, and the draft only where it
/// was started with nothing.
pub proof fn a_new_editor_holds_the_initial_content(
    content: InitialEditorContent,
    initial: Option<AgentInitialContent>,
    draft: Option<Vec<PromptBlock>>,
)
    requires
        initial_content_is(content, initial, draft),
    ensures
        content is Nothing <==> initial is None && draft is None,
        initial is None && draft is Some ==> content == InitialEditorContent::Message(draft->0),
        initial matches Some(AgentInitialContent::ContentBlock { blocks, .. }) ==> content
            == InitialEditorContent::Message(blocks),
        initial matches Some(AgentInitialContent::FromExternalSource(prompt)) ==> (content matches
            InitialEditorContent::Message(blocks) && blocks@.len() == 1 && blocks@[0]
            == PromptBlock::Text(prompt)),
        initial matches Some(AgentInitialContent::ThreadSummary { session_id, title }) ==> content
            == (InitialEditorContent::ThreadSummary { session_id, title }),
{
}

/// The full surface is open exactly where the agent is the build agent and at least one of the
/// four sections is expanded.
pub proof fn the_full_surface_takes_an_open_section(view: ThreadView, has_profile: bool)
    ensures
        in_full_grok_surface(view, has_profile) <==> (view.agent_id@ == "grok"@ || has_profile)
            && !(!view.zed_todos.state.approvals_expanded && !view.zed_todos.state.plan_expanded
            && !view.zed_todos.state.background_tasks_expanded
            && !view.zed_todos.state.grok_memory_expanded),
{
}

} // verus!
