//! The entries of a thread, as they are drawn one below the other.

use crate::feedback::ThreadFeedback;
use crate::model::{
    AcpThread, AgentThreadEntry, AssistantMessageChunk, Color, EntryContent, PlanEntry,
    ThreadStatus, UserMessage,
};
use crate::model;
use crate::response::{GeneratingIndicator, TurnStats};
use crate::response;
use crate::subagent::{AnyToolCall, SubagentThread};
use crate::subagent;
use crate::terminal_card::{CardContext, ToolCallLayout};
use crate::text;
use crate::thinking::{ThinkingBlock, ThinkingBlockDisplay, ThinkingBlockKey};
use crate::thinking;
use crate::thread_view::ThreadView;
use crate::tool_call;
use vstd::prelude::*;
use vstd::string::*;

verus! {

/// What the controls below a thread depend on besides the view and the thread.
pub struct ControlsContext<'a> {
    pub show_turn_stats: bool,
    /// In nanoseconds.
    pub stopwatch_threshold: u64,
    pub token_threshold: u64,
    /// How long the last turn took, in words.
    pub last_turn_duration_text: &'a str,
    /// The tokens of the last turn, in words.
    pub last_turn_tokens_text: &'a str,
    /// Whether the organization of the user allows ratings, where there is one.
    pub organization_allows_feedback: Option<bool>,
    pub enable_feedback: bool,
    pub has_telemetry: bool,
    /// Whether the project is still there, and whether its client is connected.
    pub project_is_connected: Option<bool>,
    pub has_server_view: bool,
    pub has_sharing_flag: bool,
    pub is_imported_thread: bool,
}

/// A button that rates a thread.
pub struct RatingButton {
    pub color: Color,
    pub tooltip: &'static str,
    pub tooltip_meta: Option<&'static str>,
}

/// The button for sharing a thread.
#[derive(Clone, Copy, PartialEq, Eq, Structural, Debug)]
pub enum SharingButton {
    Sync,
    Share,
}

/// The controls below a thread.
pub struct ThreadControls {
    pub tokens: Option<String>,
    pub clock: Option<String>,
    /// The buttons for a good and for a bad rating.
    pub ratings: Option<(RatingButton, RatingButton)>,
    pub sharing: Option<SharingButton>,
}

/// What the tooltips of the ratings warn of.
pub open spec fn rating_note() -> Seq<char> {
    "Rating the thread sends all of your current conversation to the Zed team."@
}

/// What a button that rates a thread shows.
pub open spec fn rating_shows(
    button: RatingButton,
    is_given: bool,
    offer: Seq<char>,
    thanks: Seq<char>,
) -> bool {
    if is_given {
        button.color == Color::Accent && button.tooltip@ == thanks && button.tooltip_meta is None
    } else {
        button.color == Color::Ignored && button.tooltip@ == offer && text::reference_view(
            button.tooltip_meta,
        ) == Some(rating_note())
    }
}

/// Whether a thread can be rated.
pub open spec fn can_rate(context: ControlsContext) -> bool {
    context.organization_allows_feedback != Some(false) && context.enable_feedback
        && context.has_telemetry
}

/// Whether a thread can be shared: there is a project with a connected client, the view of the
/// server is there, and sharing is switched on.
pub open spec fn can_share(context: ControlsContext) -> bool {
    context.project_is_connected == Some(true) && context.has_server_view
        && context.has_sharing_flag
}

/// Whether the last turn took long enough for its time to be shown.
pub open spec fn shows_clock(view: ThreadView, context: ControlsContext) -> bool {
    context.show_turn_stats && (view.turn_fields.last_turn_duration matches Some(duration)
        && duration > context.stopwatch_threshold)
}

/// What the controls below a thread show. While the agent generates there are none.
pub open spec fn controls_show(
    controls: Option<ThreadControls>,
    view: ThreadView,
    thread: AcpThread,
    context: ControlsContext,
) -> bool {
    match controls {
        None => thread.status == ThreadStatus::Generating,
        Some(controls) => {
            &&& thread.status != ThreadStatus::Generating
            &&& text::optional_view(controls.clock) == (if shows_clock(view, context) {
                Some(context.last_turn_duration_text@)
            } else {
                None
            })
            &&& text::optional_view(controls.tokens) == (if shows_clock(view, context) && (
            view.turn_fields.last_turn_tokens matches Some(tokens) && tokens
                > context.token_threshold) {
                Some(context.last_turn_tokens_text@ + " tokens"@)
            } else {
                None
            })
            &&& controls.ratings is Some <==> can_rate(context)
            &&& controls.ratings matches Some((up, down)) ==> {
                &&& rating_shows(
                    up,
                    view.thread_feedback.feedback == Some(ThreadFeedback::Positive),
                    "Helpful Response"@,
                    "Thanks for your feedback!"@,
                )
                &&& rating_shows(
                    down,
                    view.thread_feedback.feedback == Some(ThreadFeedback::Negative),
                    "Not Helpful Response"@,
                    "We appreciate your feedback and will use it to improve in the future."@,
                )
            }
            &&& controls.sharing == (if !can_share(context) {
                None
            } else if context.is_imported_thread {
                Some(SharingButton::Sync)
            } else {
                Some(SharingButton::Share)
            })
        },
    }
}

fn rating_button(is_given: bool, offer: &'static str, thanks: &'static str) -> (r: RatingButton)
    ensures
        rating_shows(r, is_given, offer@, thanks@),
{
    if is_given {
        RatingButton { color: Color::Accent, tooltip: thanks, tooltip_meta: None }
    } else {
        RatingButton {
            color: Color::Ignored,
            tooltip: offer,
            tooltip_meta: Some(
                "Rating the thread sends all of your current conversation to the Zed team.",
            ),
        }
    }
}

/// A step of a completed plan.
pub struct CompletedStep {
    pub content: String,
    pub has_bottom_border: bool,
}

/// A plan that was completed.
pub struct CompletedPlan {
    pub label: String,
    pub steps: Vec<CompletedStep>,
}

/// What is shown of a plan that was completed.
pub open spec fn completed_plan_shows(plan: CompletedPlan, entries: Seq<PlanEntry>) -> bool {
    &&& plan.label@ == "- "@ + text::decimal(entries.len()) + " "@ + (if entries.len() == 1 {
        "step"@
    } else {
        "steps"@
    })
    &&& plan.steps@.len() == entries.len()
    &&& forall|i: int|
        0 <= i < entries.len() ==> (#[trigger] plan.steps@[i]).content@ == entries[i].content@
            && plan.steps@[i].has_bottom_border == (i < entries.len() - 1)
}

/// A plan that was completed.
pub fn render_completed_plan(entries: &Vec<PlanEntry>) -> (r: CompletedPlan)
    ensures
        completed_plan_shows(r, entries@),
{
    let total = entries.len();
    let mut label = text::with_count("- ", total);
    label.append(" ");
    label.append(
        if total == 1 {
            "step"
        } else {
            "steps"
        },
    );
    let mut steps: Vec<CompletedStep> = Vec::new();
    let mut i: usize = 0;
    while i < total
        invariant
            i <= total == entries@.len(),
            steps@.len() == i,
            forall|j: int|
                0 <= j < i ==> (#[trigger] steps@[j]).content@ == entries@[j].content@
                    && steps@[j].has_bottom_border == (j < entries@.len() - 1),
        decreases total - i,
    {
        steps.push(
            CompletedStep { content: entries[i].content.clone(), has_bottom_border: i < total - 1 },
        );
        i = i + 1;
    }
    CompletedPlan { label, steps }
}

/// The border of a message of the user.
#[derive(Clone, Copy, PartialEq, Eq, Structural, Debug)]
pub enum MessageBorder {
    Plain,
    Dashed,
    Focused,
    /// The border lights up below the pointer.
    Hoverable,
}

/// The buttons on a message of the user that has the focus.
pub enum MessageToolbar {
    /// Buttons to cancel and to send again, or a spinner while contents are loaded.
    Editable { is_loading: bool },
    /// A note that the message cannot be edited.
    Unavailable { note: String },
}

/// A message of the user.
pub struct UserMessageView {
    pub has_small_top_padding: bool,
    pub has_checkpoint_button: bool,
    pub border: MessageBorder,
    pub toolbar: Option<MessageToolbar>,
}

/// A part of a message of the agent.
pub enum ChunkView {
    Message { markdown: String },
    Thinking { markdown: String, block: ThinkingBlock },
}

/// What an entry itself shows.
pub enum PrimaryView {
    UserMessage(UserMessageView),
    /// A message of the agent; a blank one shows nothing.
    AssistantMessage { chunks: Vec<ChunkView>, is_last: bool },
    ToolCall(AnyToolCall),
    CompletedPlan(CompletedPlan),
    ContextCompaction,
}

/// An entry with what stands round it.
pub struct EntryView {
    pub primary: PrimaryView,
    /// Whether a line above the entry says that what follows is the subagent's output.
    pub has_subagent_output_divider: bool,
    pub is_indented: bool,
    pub is_first_indented: bool,
    /// The controls below the last entry.
    pub controls: Option<ThreadControls>,
    pub has_comments_editor: bool,
    /// Whether the entry is covered because a message before it is being edited.
    pub has_backdrop: bool,
}

/// What an entry depends on besides the view and the thread.
pub struct EntryContext<'a> {
    /// Whether the entry has an editor for its message, and whether that has the focus.
    pub message_editor_focus: Option<bool>,
    pub thinking_display: ThinkingBlockDisplay,
    pub controls: ControlsContext<'a>,
    pub cards: CardContext<'a>,
    /// The thread of the subagent that the entry's call has spawned.
    pub subagent: Option<SubagentThread<'a>>,
}

/// Whether the entry is indented and the one before it is not. The first entry of all counts
/// as its own predecessor.
pub open spec fn is_first_indented(entries: Seq<AgentThreadEntry>, index: int) -> bool {
    let previous = if index > 0 {
        index - 1
    } else {
        0
    };
    entries[index].is_indented && !entries[previous].is_indented
}

/// Whether the message of the user can be edited.
pub open spec fn is_editable_message(view: ThreadView, thread: AcpThread, message: UserMessage) -> bool {
    thread.supports_truncate && message.id is Some && view.parent_session_id is None
}

/// The note on a message that cannot be edited.
pub open spec fn unavailable_note(view: ThreadView) -> Seq<char> {
    "Editing previous messages is not available for "@ + (if view.parent_session_id is Some {
        "subagents"@
    } else {
        view.agent_id@
    }) + " yet."@
}

/// What a message of the user shows.
pub open spec fn user_message_shows(
    shown: UserMessageView,
    view: ThreadView,
    thread: AcpThread,
    message: UserMessage,
    index: usize,
    has_focus: bool,
) -> bool {
    let editable = is_editable_message(view, thread, message);
    &&& shown.has_small_top_padding == is_first_indented(thread.entries@, index as int)
    &&& shown.has_checkpoint_button == (editable && message.checkpoint_show == Some(true))
    &&& shown.border == (if !editable {
        if view.parent_session_id is Some {
            MessageBorder::Dashed
        } else {
            MessageBorder::Plain
        }
    } else if view.editing_message != Some(index) {
        MessageBorder::Hoverable
    } else if has_focus {
        MessageBorder::Focused
    } else {
        MessageBorder::Dashed
    })
    &&& match shown.toolbar {
        None => !has_focus,
        Some(MessageToolbar::Editable { is_loading }) => has_focus && editable && is_loading
            == view.is_loading_contents,
        Some(MessageToolbar::Unavailable { note }) => has_focus && !editable && note@
            == unavailable_note(view),
    }
}

/// The Markdown of a chunk, where it has any that is not blank.
pub open spec fn visible_markdown(chunk: AssistantMessageChunk) -> Option<Seq<char>> {
    match response::block_of(chunk).markdown {
        Some(markdown) => if text::blank(markdown@) {
            None
        } else {
            Some(markdown@)
        },
        None => None,
    }
}

/// The places of the chunks that are shown, in order.
pub open spec fn visible_chunks(chunks: Seq<AssistantMessageChunk>) -> Seq<int>
    decreases chunks.len(),
{
    if chunks.len() == 0 {
        seq![]
    } else if visible_markdown(chunks.last()) is Some {
        visible_chunks(chunks.drop_last()).push(chunks.len() - 1)
    } else {
        visible_chunks(chunks.drop_last())
    }
}

/// What the chunk at `chunk_ix` shows.
pub open spec fn chunk_shows(
    shown: ChunkView,
    view: ThreadView,
    chunks: Seq<AssistantMessageChunk>,
    chunk_ix: int,
    entry_ix: usize,
    display: ThinkingBlockDisplay,
) -> bool {
    match (shown, chunks[chunk_ix]) {
        (ChunkView::Message { markdown }, AssistantMessageChunk::Message { .. }) => Some(markdown@)
            == visible_markdown(chunks[chunk_ix]),
        (ChunkView::Thinking { markdown, block }, AssistantMessageChunk::Thought { .. }) => {
            &&& Some(markdown@) == visible_markdown(chunks[chunk_ix])
            &&& thinking::thinking_block_shows(
                block,
                view,
                ThinkingBlockKey { entry_ix, chunk_ix: chunk_ix as usize },
                display,
            )
        },
        _ => false,
    }
}

/// What the chunks of a message show.
pub open spec fn chunks_show(
    shown: Seq<ChunkView>,
    view: ThreadView,
    chunks: Seq<AssistantMessageChunk>,
    entry_ix: usize,
    display: ThinkingBlockDisplay,
) -> bool {
    &&& shown.len() == visible_chunks(chunks).len()
    &&& forall|i: int|
        #![trigger shown[i]]
        0 <= i < shown.len() ==> chunk_shows(
            shown[i],
            view,
            chunks,
            visible_chunks(chunks)[i],
            entry_ix,
            display,
        )
}

/// What an entry itself shows.
pub open spec fn primary_shows(
    shown: PrimaryView,
    view: ThreadView,
    thread: AcpThread,
    index: usize,
    total_entries: usize,
    context: EntryContext,
) -> bool {
    match thread.entries@[index as int].content {
        EntryContent::UserMessage(message) => shown matches PrimaryView::UserMessage(shown)
            && user_message_shows(
            shown,
            view,
            thread,
            message,
            index,
            context.message_editor_focus == Some(true),
        ),
        EntryContent::AssistantMessage(message) => shown matches PrimaryView::AssistantMessage {
            chunks,
            is_last,
        } && chunks_show(chunks@, view, message.chunks@, index, context.thinking_display)
            && is_last == (index + 1 == total_entries),
        EntryContent::ToolCall(call) => shown matches PrimaryView::ToolCall(card)
            && subagent::any_tool_call_shows(
            card,
            view,
            call,
            index,
            ToolCallLayout::Standalone,
            context.subagent,
            context.cards,
        ),
        EntryContent::CompletedPlan(entries) => shown matches PrimaryView::CompletedPlan(plan)
            && completed_plan_shows(plan, entries@),
        EntryContent::ContextCompaction => shown is ContextCompaction,
    }
}

/// Whether an entry is drawn: a message of the user needs an editor.
pub open spec fn is_drawn(entry: AgentThreadEntry, context: EntryContext) -> bool {
    model::is_user_message(entry) ==> context.message_editor_focus is Some
}

/// Whether the entry holds what a subagent hands to the main agent.
pub open spec fn is_subagent_output(view: ThreadView, entry: AgentThreadEntry) -> bool {
    view.parent_session_id is Some && (entry.content matches EntryContent::AssistantMessage(
        message,
    ) && message.is_subagent_output)
}

/// What an entry shows with what stands round it.
pub open spec fn entry_shows(
    shown: EntryView,
    view: ThreadView,
    thread: AcpThread,
    index: usize,
    total_entries: usize,
    context: EntryContext,
) -> bool {
    let entry = thread.entries@[index as int];
    let is_last = index + 1 == total_entries;
    &&& primary_shows(shown.primary, view, thread, index, total_entries, context)
    &&& shown.has_subagent_output_divider == is_subagent_output(view, entry)
    &&& shown.is_indented == entry.is_indented
    &&& shown.is_first_indented == is_first_indented(thread.entries@, index as int)
    &&& if is_last && !model::is_waiting_call(entry) {
        controls_show(shown.controls, view, thread, context.controls)
    } else {
        shown.controls is None
    }
    &&& shown.has_comments_editor == (is_last && view.thread_feedback.comments_editor is Some)
    &&& shown.has_backdrop == (view.parent_session_id is None && (
    view.editing_message matches Some(editing) && editing < index))
}

/// An item of the list of entries.
pub enum ListItem {
    Nothing,
    Entry(Option<EntryView>),
    Generating(GeneratingIndicator),
}

/// Whether the entry can be drawn: its call, where it is one, has numbers that leave room for
/// what is added to them.
pub open spec fn has_room(entry: AgentThreadEntry) -> bool {
    entry.content matches EntryContent::ToolCall(call) ==> tool_call::has_countable_lines(call)
        && subagent::has_room_behind(call)
}

/// What an item of the list of entries shows: the entry, or behind the entries the indicator
/// while the agent generates.
pub open spec fn list_item_shows(
    item: ListItem,
    view: ThreadView,
    thread: AcpThread,
    index: usize,
    context: EntryContext,
    stats: TurnStats,
) -> bool {
    let entries = thread.entries@;
    if index < entries.len() {
        item matches ListItem::Entry(shown) && {
            &&& shown is Some <==> is_drawn(entries[index as int], context)
            &&& shown matches Some(shown) ==> entry_shows(
                shown,
                view,
                thread,
                index,
                entries.len() as usize,
                context,
            )
        }
    } else if view.generating_indicator_in_list {
        item matches ListItem::Generating(indicator) && response::indicator_shows(
            indicator,
            view,
            thread,
            entries.len() > 0 && model::is_waiting_call(entries.last()),
            stats,
        )
    } else {
        item is Nothing
    }
}

impl ThreadView {
    /// The controls below a thread. While the agent generates there are none.
    pub fn render_thread_controls(&self, thread: &AcpThread, context: &ControlsContext) -> (r:
        Option<ThreadControls>)
        ensures
            controls_show(r, *self, *thread, *context),
    {
        if thread.status == ThreadStatus::Generating {
            return None;
        }
        let has_clock = context.show_turn_stats && match self.turn_fields.last_turn_duration {
            Some(duration) => duration > context.stopwatch_threshold,
            None => false,
        };
        let has_tokens = has_clock && match self.turn_fields.last_turn_tokens {
            Some(tokens) => tokens > context.token_threshold,
            None => false,
        };
        let clock = if has_clock {
            Some(context.last_turn_duration_text.to_owned())
        } else {
            None
        };
        let tokens = if has_tokens {
            Some(text::concat2(context.last_turn_tokens_text, " tokens"))
        } else {
            None
        };
        let is_allowed = match context.organization_allows_feedback {
            Some(is_allowed) => is_allowed,
            None => true,
        };
        let ratings = if is_allowed && context.enable_feedback && context.has_telemetry {
            let (is_up, is_down) = match self.thread_feedback.feedback {
                Some(ThreadFeedback::Positive) => (true, false),
                Some(ThreadFeedback::Negative) => (false, true),
                None => (false, false),
            };
            Some(
                (
                    rating_button(is_up, "Helpful Response", "Thanks for your feedback!"),
                    rating_button(
                        is_down,
                        "Not Helpful Response",
                        "We appreciate your feedback and will use it to improve in the future.",
                    ),
                ),
            )
        } else {
            None
        };
        let is_connected = match context.project_is_connected {
            Some(is_connected) => is_connected,
            None => false,
        };
        let sharing = if !(is_connected && context.has_server_view && context.has_sharing_flag) {
            None
        } else if context.is_imported_thread {
            Some(SharingButton::Sync)
        } else {
            Some(SharingButton::Share)
        };
        Some(ThreadControls { tokens, clock, ratings, sharing })
    }

    fn render_user_message(
        &self,
        thread: &AcpThread,
        message: &UserMessage,
        entry_ix: usize,
        is_first_indented: bool,
        editor_focus: bool,
    ) -> (r: UserMessageView)
        requires
            is_first_indented == self::is_first_indented(thread.entries@, entry_ix as int),
        ensures
            user_message_shows(r, *self, *thread, *message, entry_ix, editor_focus),
    {
        let editing = match self.editing_message {
            Some(index) => index == entry_ix,
            None => false,
        };
        let has_checkpoint = match message.checkpoint_show {
            Some(show) => show,
            None => false,
        };
        let is_subagent = self.is_subagent();
        let is_editable = thread.supports_truncate && message.id.is_some() && !is_subagent;
        let border = if !is_editable {
            if is_subagent {
                MessageBorder::Dashed
            } else {
                MessageBorder::Plain
            }
        } else if editing && editor_focus {
            MessageBorder::Focused
        } else if editing && !editor_focus {
            MessageBorder::Dashed
        } else {
            MessageBorder::Hoverable
        };
        let toolbar = if !editor_focus {
            None
        } else if is_editable {
            Some(MessageToolbar::Editable { is_loading: self.is_loading_contents })
        } else {
            let agent_name = if is_subagent {
                "subagents"
            } else {
                self.agent_id.as_str()
            };
            Some(
                MessageToolbar::Unavailable {
                    note: text::concat3(
                        "Editing previous messages is not available for ",
                        agent_name,
                        " yet.",
                    ),
                },
            )
        };
        UserMessageView {
            has_small_top_padding: is_first_indented,
            has_checkpoint_button: is_editable && has_checkpoint,
            border,
            toolbar,
        }
    }

    fn render_chunks(
        &self,
        chunks: &Vec<AssistantMessageChunk>,
        entry_ix: usize,
        display: ThinkingBlockDisplay,
    ) -> (r: Vec<ChunkView>)
        ensures
            chunks_show(r@, *self, chunks@, entry_ix, display),
    {
        let mut shown: Vec<ChunkView> = Vec::new();
        let mut i: usize = 0;
        while i < chunks.len()
            invariant
                i <= chunks@.len(),
                shown@.len() == visible_chunks(chunks@.take(i as int)).len(),
                forall|j: int|
                    #![trigger shown@[j]]
                    0 <= j < shown@.len() ==> chunk_shows(
                        shown@[j],
                        *self,
                        chunks@,
                        visible_chunks(chunks@.take(i as int))[j],
                        entry_ix,
                        display,
                    ),
            decreases chunks@.len() - i,
        {
            assert(chunks@.take(i + 1).drop_last() == chunks@.take(i as int));
            assert(chunks@.take(i + 1).last() == chunks@[i as int]);
            match &chunks[i] {
                AssistantMessageChunk::Message { block } => {
                    if let Some(markdown) = &block.markdown {
                        if !text::is_blank(markdown.as_str()) {
                            shown.push(ChunkView::Message { markdown: markdown.clone() });
                        }
                    }
                },
                AssistantMessageChunk::Thought { block } => {
                    if let Some(markdown) = &block.markdown {
                        if !text::is_blank(markdown.as_str()) {
                            let key = ThinkingBlockKey { entry_ix, chunk_ix: i };
                            shown.push(
                                ChunkView::Thinking {
                                    markdown: markdown.clone(),
                                    block: self.render_thinking_block(key, display),
                                },
                            );
                        }
                    }
                },
            }
            i = i + 1;
        }
        assert(chunks@.take(i as int) == chunks@);
        shown
    }

    fn render_primary(
        &self,
        entry_ix: usize,
        total_entries: usize,
        thread: &AcpThread,
        is_first_indented: bool,
        context: &EntryContext,
    ) -> (r: PrimaryView)
        requires
            entry_ix < thread.entries@.len(),
            entry_ix < usize::MAX,
            has_room(thread.entries@[entry_ix as int]),
            is_first_indented == self::is_first_indented(thread.entries@, entry_ix as int),
        ensures
            primary_shows(r, *self, *thread, entry_ix, total_entries, *context),
    {
        match &thread.entries[entry_ix].content {
            EntryContent::UserMessage(message) => {
                let editor_focus = match context.message_editor_focus {
                    Some(focus) => focus,
                    None => false,
                };
                PrimaryView::UserMessage(
                    self.render_user_message(
                        thread,
                        message,
                        entry_ix,
                        is_first_indented,
                        editor_focus,
                    ),
                )
            },
            EntryContent::AssistantMessage(message) => PrimaryView::AssistantMessage {
                chunks: self.render_chunks(&message.chunks, entry_ix, context.thinking_display),
                is_last: entry_ix + 1 == total_entries,
            },
            EntryContent::ToolCall(call) => PrimaryView::ToolCall(
                self.render_any_tool_call(
                    entry_ix,
                    call,
                    ToolCallLayout::Standalone,
                    &context.subagent,
                    &context.cards,
                ),
            ),
            EntryContent::CompletedPlan(entries) => PrimaryView::CompletedPlan(
                render_completed_plan(entries),
            ),
            EntryContent::ContextCompaction => PrimaryView::ContextCompaction,
        }
    }

    /// The entry at `entry_ix`. Nothing is drawn of a message of the user without an editor.
    pub fn render_entry(
        &self,
        entry_ix: usize,
        total_entries: usize,
        thread: &AcpThread,
        context: &EntryContext,
    ) -> (r: Option<EntryView>)
        requires
            entry_ix < thread.entries@.len(),
            entry_ix < usize::MAX,
            has_room(thread.entries@[entry_ix as int]),
        ensures
            r is Some <==> is_drawn(thread.entries@[entry_ix as int], *context),
            r matches Some(shown) ==> entry_shows(
                shown,
                *self,
                *thread,
                entry_ix,
                total_entries,
                *context,
            ),
    {
        let entry = &thread.entries[entry_ix];
        if entry.is_user_message() && context.message_editor_focus.is_none() {
            return None;
        }
        let previous: usize = if entry_ix > 0 {
            entry_ix - 1
        } else {
            0
        };
        let is_indented = entry.is_indented;
        let is_first_indented = is_indented && !thread.entries[previous].is_indented;
        let primary = self.render_primary(
            entry_ix,
            total_entries,
            thread,
            is_first_indented,
            context,
        );
        let is_subagent = self.is_subagent();
        let has_subagent_output_divider = is_subagent && match &entry.content {
            EntryContent::AssistantMessage(message) => message.is_subagent_output,
            _ => false,
        };
        let is_last = entry_ix + 1 == total_entries;
        let controls = if is_last && !entry.is_waiting_for_confirmation() {
            self.render_thread_controls(thread, &context.controls)
        } else {
            None
        };
        let has_backdrop = !is_subagent && match self.editing_message {
            Some(editing) => editing < entry_ix,
            None => false,
        };
        Some(
            EntryView {
                primary,
                has_subagent_output_divider,
                is_indented,
                is_first_indented,
                controls,
                has_comments_editor: is_last && self.thread_feedback.comments_editor.is_some(),
                has_backdrop,
            },
        )
    }

    /// The item of the list of entries at `index`: the entry, or behind the entries the
    /// indicator while the agent generates.
    pub fn render_entries(
        &self,
        index: usize,
        thread: &AcpThread,
        context: &EntryContext,
        stats: &TurnStats,
    ) -> (r: ListItem)
        requires
            index < thread.entries@.len() ==> has_room(thread.entries@[index as int]),
        ensures
            list_item_shows(r, *self, *thread, index, *context, *stats),
    {
        let total = thread.entries.len();
        if index < total {
            ListItem::Entry(self.render_entry(index, total, thread, context))
        } else if self.generating_indicator_in_list {
            let confirmation = total > 0 && thread.entries[total
                - 1].is_waiting_for_confirmation();
            ListItem::Generating(self.render_generating(confirmation, thread, stats))
        } else {
            ListItem::Nothing
        }
    }
}

/// A message of the user can be changed only in a root thread that can restart from there,
/// and only such a message offers to go back to its checkpoint.
pub proof fn checkpoints_are_for_editable_messages(
    shown: UserMessageView,
    view: ThreadView,
    thread: AcpThread,
    message: UserMessage,
    index: usize,
    has_focus: bool,
)
    requires
        user_message_shows(shown, view, thread, message, index, has_focus),
    ensures
        shown.has_checkpoint_button ==> is_editable_message(view, thread, message),
        shown.toolbar matches Some(MessageToolbar::Editable { .. }) ==> is_editable_message(
            view,
            thread,
            message,
        ),
{
}

/// A button that rates a thread offers the rating with a warning, or thanks for it.
pub proof fn ratings_are_offered_or_thanked_for(
    button: RatingButton,
    is_given: bool,
    offer: Seq<char>,
    thanks: Seq<char>,
)
    requires
        rating_shows(button, is_given, offer, thanks),
    ensures
        is_given ==> button.color == Color::Accent && button.tooltip@ == thanks,
        !is_given ==> button.color == Color::Ignored && button.tooltip@ == offer,
        button.tooltip_meta is Some <==> !is_given,
        button.tooltip_meta matches Some(note) ==> note@
            == "Rating the thread sends all of your current conversation to the Zed team."@,
{
}

/// The controls are there while the agent is idle. A thread can be rated where telemetry and the
/// setting allow it and the organization does not forbid it, and shared where it is connected; an
/// imported thread is synchronised instead. The time is shown for long turns only, and the tokens
/// with it.
pub proof fn controls_offer_what_is_allowed(
    controls: Option<ThreadControls>,
    view: ThreadView,
    thread: AcpThread,
    context: ControlsContext,
)
    requires
        controls_show(controls, view, thread, context),
    ensures
        controls is Some <==> thread.status == ThreadStatus::Idle,
        controls matches Some(shown) ==> {
            &&& shown.ratings is Some <==> context.enable_feedback && context.has_telemetry && (
            context.organization_allows_feedback is None
                || context.organization_allows_feedback->0)
            &&& shown.ratings matches Some((up, down)) ==> {
                &&& up.color == Color::Accent <==> view.thread_feedback.feedback == Some(
                    ThreadFeedback::Positive,
                )
                &&& down.color == Color::Accent <==> view.thread_feedback.feedback == Some(
                    ThreadFeedback::Negative,
                )
                &&& view.thread_feedback.feedback is None ==> up.tooltip@ == "Helpful Response"@
                    && down.tooltip@ == "Not Helpful Response"@
                &&& up.color == Color::Accent ==> up.tooltip@ == "Thanks for your feedback!"@
                &&& down.color == Color::Accent ==> down.tooltip@
                    == "We appreciate your feedback and will use it to improve in the future."@
            }
            &&& shown.sharing is Some <==> context.project_is_connected is Some
                && context.project_is_connected->0 && context.has_server_view
                && context.has_sharing_flag
            &&& shown.sharing == Some(SharingButton::Sync) ==> context.is_imported_thread
            &&& shown.sharing == Some(SharingButton::Share) ==> !context.is_imported_thread
            &&& shown.clock is Some <==> context.show_turn_stats
                && view.turn_fields.last_turn_duration is Some
                && view.turn_fields.last_turn_duration->0 > context.stopwatch_threshold
            &&& shown.clock is Some ==> shown.clock->0@ == context.last_turn_duration_text@
            &&& shown.tokens is Some <==> shown.clock is Some && view.turn_fields.last_turn_tokens
                is Some && view.turn_fields.last_turn_tokens->0 > context.token_threshold
            &&& shown.tokens is Some ==> shown.tokens->0@ == context.last_turn_tokens_text@
                + " tokens"@
        },
{
}

/// A completed plan counts its steps and lists them in order.
pub proof fn completed_plans_list_their_steps(
    plan: CompletedPlan,
    entries: Seq<PlanEntry>,
    i: int,
)
    requires
        completed_plan_shows(plan, entries),
    ensures
        entries.len() == 1 ==> plan.label@ == "- "@ + text::decimal(1) + " "@ + "step"@,
        entries.len() != 1 ==> plan.label@ == "- "@ + text::decimal(entries.len()) + " "@
            + "steps"@,
        plan.steps@.len() == entries.len(),
        0 <= i < entries.len() ==> plan.steps@[i].content@ == entries[i].content@ && (
        plan.steps@[i].has_bottom_border <==> i + 1 < entries.len()),
{
}

/// An entry is the first indented one where it is indented and the entry before it is not. The
/// first entry of a thread never is.
pub proof fn the_first_indented_entry_follows_one_that_is_not(
    entries: Seq<AgentThreadEntry>,
    index: int,
)
    requires
        0 <= index < entries.len(),
    ensures
        index > 0 ==> (is_first_indented(entries, index) <==> entries[index].is_indented
            && !entries[index - 1].is_indented),
        index == 0 ==> !is_first_indented(entries, index),
{
}

/// A message of the user can be edited in a root thread that can restart, where it has an
/// identifier; then it offers to go back to its checkpoint. The message being edited stands out,
/// and a message with the focus offers to be sent again, or says why it cannot be.
pub proof fn messages_show_whether_they_can_be_edited(
    shown: UserMessageView,
    view: ThreadView,
    thread: AcpThread,
    message: UserMessage,
    index: usize,
    has_focus: bool,
)
    requires
        user_message_shows(shown, view, thread, message, index, has_focus),
    ensures
        ({
            let editable = thread.supports_truncate && message.id is Some && view.parent_session_id
                is None;
            &&& is_editable_message(view, thread, message) <==> editable
            &&& shown.has_checkpoint_button <==> editable && message.checkpoint_show is Some
                && message.checkpoint_show->0
            &&& shown.border == MessageBorder::Hoverable <==> editable && view.editing_message
                != Some(index)
            &&& shown.border == MessageBorder::Focused <==> editable && view.editing_message == Some(
                index,
            ) && has_focus
            &&& shown.border == MessageBorder::Plain <==> !editable && view.parent_session_id
                is None
            &&& shown.toolbar is Some <==> has_focus
            &&& shown.toolbar is Some ==> (shown.toolbar->0 is Editable <==> editable)
            &&& shown.toolbar matches Some(MessageToolbar::Editable { is_loading }) ==> is_loading
                == view.is_loading_contents
            &&& shown.toolbar matches Some(MessageToolbar::Unavailable { note }) ==> note@
                == "Editing previous messages is not available for "@ + (
            if view.parent_session_id is Some {
                "subagents"@
            } else {
                view.agent_id@
            }) + " yet."@
        }),
{
}

/// The chunks that are shown are those with Markdown that is not blank, in order.
pub proof fn chunks_with_words_are_shown(
    first: Seq<AssistantMessageChunk>,
    chunk: AssistantMessageChunk,
    markdown: String,
)
    ensures
        visible_markdown(chunk) is Some ==> visible_chunks(first.push(chunk)) == visible_chunks(
            first,
        ).push(first.len() as int),
        visible_markdown(chunk) is None ==> visible_chunks(first.push(chunk)) == visible_chunks(
            first,
        ),
        visible_chunks(Seq::empty()).len() == 0,
        response::block_of(chunk).markdown is None ==> visible_markdown(chunk) is None,
        response::block_of(chunk).markdown == Some(markdown) ==> (visible_markdown(chunk) is Some
            <==> text::trimmed(markdown@).len() > 0),
        response::block_of(chunk).markdown == Some(markdown) && visible_markdown(chunk) is Some
            ==> visible_markdown(chunk) == Some(markdown@),
{
    text::blank_text_trims_to_nothing(markdown@);
    assert(first.push(chunk).drop_last() =~= first);
}

/// A chunk shows its words, and a thought shows them in its block.
pub proof fn chunks_show_their_words(
    shown: Seq<ChunkView>,
    view: ThreadView,
    chunks: Seq<AssistantMessageChunk>,
    entry_ix: usize,
    display: ThinkingBlockDisplay,
    i: int,
)
    requires
        chunks_show(shown, view, chunks, entry_ix, display),
        0 <= i < shown.len(),
    ensures
        shown.len() == visible_chunks(chunks).len(),
        ({
            let chunk = chunks[visible_chunks(chunks)[i]];
            &&& shown[i] is Thinking <==> chunk is Thought
            &&& match shown[i] {
                ChunkView::Message { markdown } => Some(markdown@) == visible_markdown(chunk),
                ChunkView::Thinking { markdown, .. } => Some(markdown@) == visible_markdown(chunk),
            }
        }),
{
    assert(chunk_shows(shown[i], view, chunks, visible_chunks(chunks)[i], entry_ix, display));
}

/// An entry is drawn as what it is. A message of the user needs an editor for that.
pub proof fn entries_are_drawn_as_what_they_are(
    item: ListItem,
    view: ThreadView,
    thread: AcpThread,
    index: usize,
    context: EntryContext,
    stats: TurnStats,
)
    requires
        list_item_shows(item, view, thread, index, context, stats),
        thread.entries@.len() <= usize::MAX,
    ensures
        item is Entry <==> index < thread.entries@.len(),
        item is Generating <==> index >= thread.entries@.len() && view.generating_indicator_in_list,
        item matches ListItem::Entry(shown) ==> {
            let entry = thread.entries@[index as int];
            &&& shown is None <==> entry.content is UserMessage && context.message_editor_focus
                is None
            &&& shown matches Some(drawn) ==> {
                &&& drawn.primary is UserMessage <==> entry.content is UserMessage
                &&& drawn.primary is AssistantMessage <==> entry.content is AssistantMessage
                &&& drawn.primary is ToolCall <==> entry.content is ToolCall
                &&& drawn.primary is CompletedPlan <==> entry.content is CompletedPlan
                &&& drawn.primary is ContextCompaction <==> entry.content is ContextCompaction
                &&& drawn.primary matches PrimaryView::AssistantMessage { is_last, .. } ==> (is_last
                    <==> index + 1 == thread.entries@.len())
                &&& drawn.is_indented == entry.is_indented
                &&& drawn.controls is Some ==> index + 1 == thread.entries@.len() && thread.status
                    == ThreadStatus::Idle
                &&& index + 1 == thread.entries@.len() && thread.status == ThreadStatus::Idle && !(
                entry.content is ToolCall && entry.content->ToolCall_0.status
                    is WaitingForConfirmation) ==> drawn.controls is Some
                &&& drawn.has_comments_editor <==> index + 1 == thread.entries@.len()
                    && view.thread_feedback.comments_editor is Some
                &&& drawn.has_backdrop <==> view.parent_session_id is None && view.editing_message
                    is Some && view.editing_message->0 < index
                &&& drawn.has_subagent_output_divider <==> view.parent_session_id is Some && (
                entry.content matches EntryContent::AssistantMessage(message)
                    && message.is_subagent_output)
            }
        },
        item matches ListItem::Generating(indicator) ==> {
            let waits = thread.entries@.len() > 0 && thread.entries@.last().content is ToolCall
                && thread.entries@.last().content->ToolCall_0.status is WaitingForConfirmation;
            &&& indicator.label is Some <==> waits
        },
{
}

/// A message of the user stands close to the one above it where it starts an indented part.
pub proof fn indented_parts_start_close(
    shown: UserMessageView,
    view: ThreadView,
    thread: AcpThread,
    message: UserMessage,
    index: usize,
    has_focus: bool,
)
    requires
        user_message_shows(shown, view, thread, message, index, has_focus),
        0 < index < thread.entries@.len(),
    ensures
        shown.has_small_top_padding <==> thread.entries@[index as int].is_indented
            && !thread.entries@[index - 1].is_indented,
{
}

/// The parts of an entry: a message of the user has the focus where its editor has it, a message
/// of the agent shows its chunks as the settings say, and a call stands in a card of its own.
pub proof fn entries_show_their_parts(
    item: ListItem,
    view: ThreadView,
    thread: AcpThread,
    index: usize,
    context: EntryContext,
    stats: TurnStats,
)
    requires
        list_item_shows(item, view, thread, index, context, stats),
        index < thread.entries@.len(),
    ensures
        item matches ListItem::Entry(Some(shown)) ==> {
            &&& shown.is_first_indented <==> index > 0 && thread.entries@[index as int].is_indented
                && !thread.entries@[index - 1].is_indented
            &&& match (thread.entries@[index as int].content, shown.primary) {
                (EntryContent::UserMessage(message), PrimaryView::UserMessage(drawn)) => {
                    &&& drawn.toolbar is Some <==> context.message_editor_focus is Some
                        && context.message_editor_focus->0
                },
                (
                    EntryContent::AssistantMessage(message),
                    PrimaryView::AssistantMessage { chunks, .. },
                ) => chunks_show(
                    chunks@,
                    view,
                    message.chunks@,
                    index,
                    context.thinking_display,
                ),
                (
                    EntryContent::ToolCall(call),
                    PrimaryView::ToolCall(card),
                ) => subagent::any_tool_call_shows(
                    card,
                    view,
                    call,
                    index,
                    ToolCallLayout::Standalone,
                    context.subagent,
                    context.cards,
                ),
                (EntryContent::CompletedPlan(entries), PrimaryView::CompletedPlan(plan)) =>
                    plan.steps@.len() == entries@.len(),
                (EntryContent::ContextCompaction, PrimaryView::ContextCompaction) => true,
                _ => false,
            }
        },
{
}

/// The indicator in the list waits with the last call, and shows how the turn stands.
pub proof fn the_indicator_waits_with_the_last_call(
    item: ListItem,
    view: ThreadView,
    thread: AcpThread,
    index: usize,
    context: EntryContext,
    stats: TurnStats,
)
    requires
        list_item_shows(item, view, thread, index, context, stats),
        index >= thread.entries@.len(),
        view.generating_indicator_in_list,
    ensures
        item matches ListItem::Generating(indicator) && response::indicator_shows(
            indicator,
            view,
            thread,
            thread.entries@.len() > 0 && (thread.entries@.last().content matches
                EntryContent::ToolCall(call) && call.status is WaitingForConfirmation),
            stats,
        ),
{
}

} // verus!
