//! Sending messages: what a request to send leads to, and the life of a turn.

use crate::callouts::{ErrorTelemetry, ThreadError};
use crate::callouts;
use crate::editing::{EditorLines, EditorMode, Splice};
use crate::editing;
use crate::feedback::ThreadFeedbackState;
use crate::model::{AcpThread, AgentThreadEntry, EntryContent, PromptBlock, ThreadStatus};
use crate::model;
use crate::queue::QueuedSend;
use crate::queue;
use crate::text;
use crate::thread_view::{AcpThreadViewEvent, ThreadView};
use crate::turn;
use vstd::prelude::*;
use vstd::string::*;

verus! {

/// The longest provisional title of a thread, in characters. The caller cuts longer ones.
pub const PROVISIONAL_TITLE_LIMIT: usize = 200;

/// What is known when the user asks to send.
pub struct SendInput<'a> {
    pub is_editor_empty: bool,
    pub thread: &'a AcpThread,
    pub text: &'a str,
    /// Whether the agent has ways to authenticate.
    pub can_login: bool,
    /// The names of the commands that the agent offers.
    pub available_commands: &'a Vec<String>,
}

/// A message whose contents are being loaded in order to send it.
#[derive(Clone, Copy, PartialEq, Eq, Structural, Debug)]
pub struct Sending {
    /// Whether the workspace follows the agent again.
    pub follow: bool,
    /// Whether the message is the first of its thread.
    pub is_first_message: bool,
}

/// What is known of a message that the view starts to send.
pub open spec fn sending_of(view: ThreadView, thread: AcpThread) -> Sending {
    Sending { follow: view.should_be_following, is_first_message: thread.entries@.len() == 0 }
}

/// What a request to send leads to.
pub enum SendAction {
    Nothing,
    /// The first queued message is sent.
    SendQueued(QueuedSend),
    /// The message in the editor is queued.
    Queue,
    /// The editor is cleared and the user is asked to authenticate.
    Authenticate,
    /// The message in the editor is sent.
    Send(Sending),
}

impl SendAction {
    /// What is reported of a request to send: an interaction, where a message is sent or
    /// queued.
    pub fn event(&self) -> (r: Option<AcpThreadViewEvent>)
        ensures
            r == (match choice_of(*self) {
                SendChoice::Nothing | SendChoice::Authenticate => None,
                SendChoice::SendQueued | SendChoice::Queue | SendChoice::Send => Some(
                    AcpThreadViewEvent::Interacted,
                ),
            }),
    {
        match self {
            SendAction::Nothing => None,
            SendAction::Authenticate => None,
            SendAction::SendQueued(_) => Some(AcpThreadViewEvent::Interacted),
            SendAction::Queue => Some(AcpThreadViewEvent::Interacted),
            SendAction::Send(_) => Some(AcpThreadViewEvent::Interacted),
        }
    }
}

/// What a request to send leads to, without its details.
#[derive(Clone, Copy, PartialEq, Eq, Structural, Debug)]
pub enum SendChoice {
    Nothing,
    SendQueued,
    Queue,
    Authenticate,
    Send,
}

/// Whether the text is a command that the view answers by asking to authenticate. A logout
/// command of the agent itself has precedence.
pub open spec fn asks_to_authenticate(
    text: Seq<char>,
    can_login: bool,
    commands: Seq<String>,
) -> bool {
    let command = text::trimmed(text);
    &&& command == "/login"@ || command == "/logout"@
    &&& can_login
    &&& !(command == "/logout"@ && text::views(commands).contains("logout"@))
}

/// What a request to send leads to.
pub open spec fn send_choice(view: ThreadView, input: SendInput) -> SendChoice {
    if view.is_loading_contents {
        SendChoice::Nothing
    } else if input.is_editor_empty {
        if view.can_fast_track_queue && view.local_queued_messages@.len() > 0 {
            SendChoice::SendQueued
        } else {
            SendChoice::Nothing
        }
    } else if input.thread.status != ThreadStatus::Idle {
        SendChoice::Queue
    } else if asks_to_authenticate(input.text@, input.can_login, input.available_commands@) {
        SendChoice::Authenticate
    } else {
        SendChoice::Send
    }
}

/// The choice behind an action.
pub open spec fn choice_of(action: SendAction) -> SendChoice {
    match action {
        SendAction::Nothing => SendChoice::Nothing,
        SendAction::SendQueued(_) => SendChoice::SendQueued,
        SendAction::Queue => SendChoice::Queue,
        SendAction::Authenticate => SendChoice::Authenticate,
        SendAction::Send(_) => SendChoice::Send,
    }
}

/// The view once a message is on its way: no error, no rating, nothing being edited, and the
/// contents of the message being loaded.
pub open spec fn ready_to_send(view: ThreadView) -> ThreadView {
    ThreadView {
        thread_error: None,
        thread_feedback: ThreadFeedbackState { feedback: None, comments_editor: None },
        editing_message: None,
        is_loading_contents: true,
        ..view
    }
}

fn offers_command(commands: &Vec<String>, name: &str) -> (r: bool)
    ensures
        r == text::views(commands@).contains(name@),
{
    let mut i: usize = 0;
    while i < commands.len()
        invariant
            i <= commands@.len(),
            forall|j: int| 0 <= j < i ==> (#[trigger] commands@[j])@ != name@,
        decreases commands@.len() - i,
    {
        if text::same_text(commands[i].as_str(), name) {
            assert(text::views(commands@)[i as int] == name@);
            return true;
        }
        i = i + 1;
    }
    false
}

/// The text of a block in a title: a text itself, a link by its name.
pub open spec fn title_part(block: PromptBlock) -> Option<Seq<char>> {
    match block {
        PromptBlock::Text(text) => Some(text@),
        PromptBlock::ResourceLink { name, .. } => Some("@"@ + name@),
        PromptBlock::Other { .. } => None,
    }
}

/// The texts of the blocks in a title, in order.
pub open spec fn title_parts(blocks: Seq<PromptBlock>) -> Seq<Seq<char>>
    decreases blocks.len(),
{
    if blocks.len() == 0 {
        seq![]
    } else {
        match title_part(blocks.last()) {
            Some(part) => title_parts(blocks.drop_last()).push(part),
            None => title_parts(blocks.drop_last()),
        }
    }
}

/// The first line of a message without the space around it.
pub open spec fn title_text(blocks: Seq<PromptBlock>) -> Seq<char> {
    text::trimmed(text::before_first(text::joined(title_parts(blocks), " "@), '\n'))
}

/// The text for the title of a thread that starts with this message: its first line. Nothing
/// where that is blank.
pub fn provisional_title(blocks: &Vec<PromptBlock>) -> (r: Option<String>)
    ensures
        text::optional_view(r) == (if title_text(blocks@).len() > 0 {
            Some(title_text(blocks@))
        } else {
            None
        }),
{
    let mut parts: Vec<String> = Vec::new();
    let mut i: usize = 0;
    assert(text::views(parts@) =~= seq![]);
    while i < blocks.len()
        invariant
            i <= blocks@.len(),
            text::views(parts@) == title_parts(blocks@.take(i as int)),
        decreases blocks@.len() - i,
    {
        assert(blocks@.take(i + 1).drop_last() == blocks@.take(i as int));
        let ghost before = parts@;
        match &blocks[i] {
            PromptBlock::Text(text) => {
                parts.push(text.clone());
                assert(text::views(parts@) =~= text::views(before).push(text@));
            },
            PromptBlock::ResourceLink { name, .. } => {
                parts.push(text::concat2("@", name.as_str()));
                assert(text::views(parts@) =~= text::views(before).push("@"@ + name@));
            },
            PromptBlock::Other { .. } => {},
        }
        i = i + 1;
    }
    assert(blocks@.take(i as int) == blocks@);
    let joined = text::join(&parts, " ");
    let line = text::trim(text::until(joined.as_str(), '\n'));
    if line.is_empty() {
        None
    } else {
        Some(line.to_owned())
    }
}

/// The contents of the message editor, as they are sent. Without any contents nothing is
/// sent, and the editor is left alone.
pub fn sendable_contents(contents: Vec<PromptBlock>) -> (r: Option<Vec<PromptBlock>>)
    ensures
        r == (if contents@.len() > 0 {
            Some(contents)
        } else {
            None
        }),
{
    if contents.len() == 0 {
        None
    } else {
        Some(contents)
    }
}

/// Whether the entry holds a diff.
pub open spec fn has_diff(entry: AgentThreadEntry) -> bool {
    entry.content matches EntryContent::ToolCall(call) && model::first_diff(call.content@) is Some
}

fn entry_has_diff(entry: &AgentThreadEntry) -> (r: bool)
    ensures
        r == has_diff(*entry),
{
    match &entry.content {
        EntryContent::ToolCall(call) => call.first_diff().is_some(),
        _ => false,
    }
}

/// The identifier of the user message at `index`.
pub open spec fn user_message_id(entries: Seq<AgentThreadEntry>, index: int) -> Option<String> {
    if 0 <= index < entries.len() {
        match entries[index].content {
            EntryContent::UserMessage(message) => message.id,
            _ => None,
        }
    } else {
        None
    }
}

/// Whether one of the first `n` entries holds a diff.
pub open spec fn has_earlier_edits(entries: Seq<AgentThreadEntry>, n: int) -> bool {
    exists|i: int| 0 <= i < n && i < entries.len() && has_diff(#[trigger] entries[i])
}

/// A message that is sent again after it was edited.
pub struct Regeneration {
    pub user_message_id: String,
    /// Whether edits of earlier prompts are kept before the thread is rewound.
    pub keep_earlier_edits: bool,
    /// The prompt that continues with outstanding todos, where that is due.
    pub continuation: Option<Continuation>,
}

impl Regeneration {
    /// What is reported once the thread was rewound, before the message is sent: an
    /// interaction.
    pub fn event(&self) -> (r: AcpThreadViewEvent)
        ensures
            r == AcpThreadViewEvent::Interacted,
    {
        AcpThreadViewEvent::Interacted
    }
}

/// A prompt that continues with outstanding todos.
pub struct Continuation {
    pub prompt: &'static str,
    pub sending: Sending,
}

/// The prompt that continues with outstanding todos.
pub open spec fn continuation_prompt() -> Seq<char> {
    "The prompt queue is empty, but there is still outstanding work on the persistent todos surface (plan entries, pending approvals, background monitors, or Grok memory facts). Continue with the next highest-priority item. Keep the plan and todo_write calls up to date."@
}

/// Whether the view continues with outstanding todos on its own: nothing is queued, the
/// agent is idle, and there is work left.
pub open spec fn continues_on_its_own(view: ThreadView, thread: AcpThread) -> bool {
    &&& view.local_queued_messages@.len() == 0
    &&& thread.status == ThreadStatus::Idle
    &&& thread.has_outstanding_todos
}

/// What interrupting leads to.
#[derive(Clone, Copy, PartialEq, Eq, Structural, Debug)]
pub enum InterruptAction {
    Nothing,
    /// The message in the editor is sent.
    Send(Sending),
    /// The generation is canceled; then the message in the editor is sent.
    CancelThenSend,
}

impl InterruptAction {
    /// What is reported of an interruption: an interaction, where something is sent.
    pub fn event(&self) -> (r: Option<AcpThreadViewEvent>)
        ensures
            r == (if *self == InterruptAction::Nothing {
                None
            } else {
                Some(AcpThreadViewEvent::Interacted)
            }),
    {
        match self {
            InterruptAction::Nothing => None,
            InterruptAction::Send(_) => Some(AcpThreadViewEvent::Interacted),
            InterruptAction::CancelThenSend => Some(AcpThreadViewEvent::Interacted),
        }
    }
}

/// The view after its thread was canceled.
pub open spec fn canceled(view: ThreadView, thread: AcpThread) -> ThreadView {
    ThreadView {
        thread_retry_status: None,
        thread_error: None,
        user_interrupted_generation: true,
        generating_indicator_in_list: thread.status == ThreadStatus::Generating,
        ..view
    }
}

/// The view without its error.
pub open spec fn without_error(view: ThreadView) -> ThreadView {
    ThreadView { thread_error: None, ..view }
}

/// The view after its thread tries again.
pub open spec fn retrying(view: ThreadView, thread: AcpThread) -> ThreadView {
    ThreadView {
        thread_error: None,
        generating_indicator_in_list: thread.status == ThreadStatus::Generating,
        ..view
    }
}

/// The part of the list of entries that is replaced so that it shows the indicator as the
/// status of the thread has it.
pub open spec fn thread_indicator(view: ThreadView, thread: AcpThread) -> Option<Splice> {
    editing::indicator_splice(
        view.generating_indicator_in_list,
        thread.status == ThreadStatus::Generating,
        thread.entries@.len() as usize,
    )
}

/// A generation that was canceled.
#[derive(Clone, Copy, PartialEq, Eq, Structural, Debug)]
pub struct Cancellation {
    pub indicator: Option<Splice>,
}

/// A generation that is tried again.
#[derive(Clone, Copy, PartialEq, Eq, Structural, Debug)]
pub struct Retry {
    /// What is reported.
    pub event: AcpThreadViewEvent,
    pub indicator: Option<Splice>,
}

/// A turn that starts.
pub struct TurnStart {
    pub generation: usize,
    /// The text for the title of a thread that has none. The caller cuts it at
    /// [`PROVISIONAL_TITLE_LIMIT`].
    pub provisional_title: Option<String>,
    /// The mode of the message editor, which shrinks.
    pub editor_mode: EditorMode,
}

/// How a turn ended.
#[derive(Clone, Copy, PartialEq, Eq, Structural, Debug)]
pub enum TurnStatus {
    Success,
    Failure,
}

impl TurnStatus {
    /// The word that is reported.
    pub fn word(&self) -> (r: &'static str)
        ensures
            r@ == (match *self {
                TurnStatus::Success => "success"@,
                TurnStatus::Failure => "failure"@,
            }),
    {
        match self {
            TurnStatus::Success => "success",
            TurnStatus::Failure => "failure",
        }
    }
}

impl ThreadView {
    /// Whether there is work left on the todos surface.
    pub fn has_outstanding_todos(&self, thread: &AcpThread) -> (r: bool)
        ensures
            r == thread.has_outstanding_todos,
    {
        thread.has_outstanding_todos
    }

    /// Whether directory mentions are expanded: the profile of a native thread is known and
    /// enables no tools.
    pub fn resolve_message_contents(&self, is_native_thread: bool, profile_tool_count: Option<usize>) -> (
    expand: bool)
        ensures
            expand == (is_native_thread && profile_tool_count == Some(0usize)),
    {
        is_native_thread && match profile_tool_count {
            Some(n) => n == 0,
            None => false,
        }
    }

    /// Hides the warning about a prompt from an external source; says whether it was shown.
    pub fn clear_external_source_prompt_warning(&mut self) -> (changed: bool)
        ensures
            changed == old(self).show_external_source_prompt_warning,
            *final(self) == (ThreadView {
                show_external_source_prompt_warning: false,
                ..*old(self)
            }),
    {
        if self.show_external_source_prompt_warning {
            self.show_external_source_prompt_warning = false;
            true
        } else {
            false
        }
    }

    /// Sends what is in the editor, or what is first in the queue where the editor is empty.
    /// While the agent generates, the message is queued.
    pub fn send(&mut self, input: SendInput, native_flag: &mut Option<bool>) -> (r: SendAction)
        requires
            old(self).skip_queue_processing_count < usize::MAX,
        ensures
            choice_of(r) == send_choice(*old(self), input),
            *final(native_flag) == (if r is SendQueued {
                queue::told(*old(native_flag), final(self).local_queued_messages@)
            } else {
                *old(native_flag)
            }),
            match r {
                SendAction::Nothing => *final(self) == *old(self),
                SendAction::SendQueued(queued) => {
                    &&& queued.message == old(self).local_queued_messages@[0]
                    &&& queued.sending == sending_of(*old(self), *input.thread)
                    &&& queued.cancels_thread
                    &&& *final(self) == (ThreadView {
                        can_fast_track_queue: false,
                        local_queued_messages: final(self).local_queued_messages,
                        skip_queue_processing_count: (old(self).skip_queue_processing_count + (
                        if input.thread.status == ThreadStatus::Generating {
                            1int
                        } else {
                            0int
                        })) as usize,
                        is_loading_contents: true,
                        ..*old(self)
                    })
                    &&& final(self).local_queued_messages@
                        == old(self).local_queued_messages@.remove(0)
                },
                SendAction::Queue => *final(self) == *old(self),
                SendAction::Authenticate => *final(self) == (ThreadView {
                    show_external_source_prompt_warning: false,
                    ..*old(self)
                }),
                SendAction::Send(sending) => *final(self) == ready_to_send(*old(self)) && sending
                    == sending_of(*old(self), *input.thread),
            },
    {
        if self.is_loading_contents {
            return SendAction::Nothing;
        }
        let has_queued = self.has_queued_messages();
        if input.is_editor_empty && self.can_fast_track_queue && has_queued {
            self.can_fast_track_queue = false;
            return match self.send_queued_message_at_index(0, true, input.thread, native_flag) {
                Some(queued) => SendAction::SendQueued(queued),
                None => SendAction::Nothing,
            };
        }
        if input.is_editor_empty {
            return SendAction::Nothing;
        }
        if input.thread.status != ThreadStatus::Idle {
            return SendAction::Queue;
        }
        let command = text::trim(input.text);
        let is_logout = text::same_text(command, "/logout");
        if text::same_text(command, "/login") || is_logout {
            let logout_supported = is_logout && offers_command(input.available_commands, "logout");
            if input.can_login && !logout_supported {
                self.clear_external_source_prompt_warning();
                return SendAction::Authenticate;
            }
        }
        SendAction::Send(self.send_impl(input.thread))
    }

    /// Gets the view ready to send a message and starts to load its contents.
    pub fn send_impl(&mut self, thread: &AcpThread) -> (r: Sending)
        ensures
            *final(self) == ready_to_send(*old(self)),
            r == sending_of(*old(self), *thread),
    {
        self.thread_error = None;
        self.thread_feedback.clear();
        self.editing_message = None;
        let follow = self.should_be_following;
        let is_first_message = self.send_content(thread);
        Sending { follow, is_first_message }
    }

    /// Starts to load the contents of a message; says whether it is the first of its thread.
    pub fn send_content(&mut self, thread: &AcpThread) -> (is_first_message: bool)
        ensures
            *final(self) == (ThreadView { is_loading_contents: true, ..*old(self) }),
            is_first_message == (thread.entries@.len() == 0),
    {
        self.is_loading_contents = true;
        thread.entries.len() == 0
    }

    /// Takes in the contents of the message that is being sent. Without contents nothing is
    /// sent and the loading ends. Else a turn starts, the message is kept until it is
    /// answered, the editor shrinks, and a thread without messages and title gets one.
    pub fn contents_resolved(
        &mut self,
        contents: Option<Vec<PromptBlock>>,
        is_first_message: bool,
        thread: &AcpThread,
        lines: EditorLines,
        now: u64,
    ) -> (r: Option<TurnStart>)
        requires
            old(self).turn_fields.turn_generation < usize::MAX,
        ensures
            r is Some <==> contents is Some,
            match (r, contents) {
                (Some(start), Some(blocks)) => {
                    &&& *final(self) == (ThreadView {
                        show_external_source_prompt_warning: false,
                        turn_fields: turn::started(old(self).turn_fields, now),
                        in_flight_prompt: contents,
                        editor_expanded: false,
                        ..*old(self)
                    })
                    &&& start.generation == final(self).turn_fields.turn_generation
                    &&& start.editor_mode == editing::expanded_mode(false, lines)
                    &&& text::optional_view(start.provisional_title) == (if is_first_message
                        && thread.title is None && title_text(blocks@).len() > 0 {
                        Some(title_text(blocks@))
                    } else {
                        None
                    })
                },
                _ => *final(self) == (ThreadView { is_loading_contents: false, ..*old(self) }),
            },
    {
        match contents {
            None => {
                self.is_loading_contents = false;
                None
            },
            Some(blocks) => {
                let title = if is_first_message && thread.title.is_none() {
                    provisional_title(&blocks)
                } else {
                    None
                };
                self.clear_external_source_prompt_warning();
                let generation = self.turn_fields.start(now);
                self.in_flight_prompt = Some(blocks);
                let editor_mode = self.set_editor_is_expanded(false, lines);
                Some(TurnStart { generation, provisional_title: title, editor_mode })
            },
        }
    }

    /// The message was handed to the agent, so the loading ends. The list of entries shows
    /// the indicator as the status of the thread has it then.
    pub fn contents_sent(&mut self, thread: &AcpThread) -> (r: Option<Splice>)
        ensures
            *final(self) == (ThreadView {
                is_loading_contents: false,
                generating_indicator_in_list: thread.status == ThreadStatus::Generating,
                ..*old(self)
            }),
            r == thread_indicator(*old(self), *thread),
    {
        self.is_loading_contents = false;
        self.sync_generating_indicator(
            thread.status == ThreadStatus::Generating,
            thread.entries.len(),
        )
    }

    /// The turn of this generation ended. A message that was answered need not be kept.
    pub fn turn_completed(&mut self, generation: usize, succeeded: bool, now: u64) -> (r: TurnStatus)
        ensures
            *final(self) == (ThreadView {
                turn_fields: turn::stopped(old(self).turn_fields, generation, now),
                in_flight_prompt: if succeeded {
                    None
                } else {
                    old(self).in_flight_prompt
                },
                ..*old(self)
            }),
            r == (if succeeded {
                TurnStatus::Success
            } else {
                TurnStatus::Failure
            }),
    {
        self.stop_turn(generation, now);
        if succeeded {
            self.in_flight_prompt = None;
            TurnStatus::Success
        } else {
            TurnStatus::Failure
        }
    }

    /// A message was sent without an error, or there were no contents to send: the view goes on
    /// following as the workspace does.
    pub fn sending_succeeded(&mut self, workspace_follows: bool)
        ensures
            *final(self) == (ThreadView { should_be_following: workspace_follows, ..*old(self) }),
    {
        self.should_be_following = workspace_follows;
    }

    /// A message was not sent, or its contents could not be read: the loading ends, and the
    /// error is shown. Gives what is reported of it.
    pub fn sending_failed(&mut self, error: ThreadError, name: &str) -> (r: ErrorTelemetry)
        ensures
            *final(self) == (ThreadView {
                is_loading_contents: false,
                thread_error: Some(error),
                ..*old(self)
            }),
            r.kind@ == callouts::error_kind(error),
            r.acp_error_code == (match error {
                ThreadError::Other { acp_error_code, .. } => acp_error_code,
                _ => None,
            }),
            r.message@ == callouts::reported_message(error, name@),
    {
        self.is_loading_contents = false;
        self.handle_thread_error(error, name)
    }

    /// Sends what is in the editor, after canceling a generation that is under way.
    pub fn interrupt_and_send(&mut self, thread: &AcpThread) -> (r: InterruptAction)
        ensures
            r == (if old(self).is_loading_contents {
                InterruptAction::Nothing
            } else if thread.status == ThreadStatus::Idle {
                InterruptAction::Send(sending_of(*old(self), *thread))
            } else {
                InterruptAction::CancelThenSend
            }),
            *final(self) == (match r {
                InterruptAction::Nothing => *old(self),
                InterruptAction::Send(_) => ready_to_send(*old(self)),
                InterruptAction::CancelThenSend => (ThreadView {
                    skip_queue_processing_count: 0,
                    user_interrupted_generation: true,
                    ..*old(self)
                }),
            }),
    {
        if self.is_loading_contents {
            return InterruptAction::Nothing;
        }
        if thread.status == ThreadStatus::Idle {
            return InterruptAction::Send(self.send_impl(thread));
        }
        self.stop_current_and_send_new_message();
        InterruptAction::CancelThenSend
    }

    /// Gets ready to cancel the generation and to send the message in the editor after that.
    pub fn stop_current_and_send_new_message(&mut self)
        ensures
            *final(self) == (ThreadView {
                skip_queue_processing_count: 0,
                user_interrupted_generation: true,
                ..*old(self)
            }),
    {
        self.skip_queue_processing_count = 0;
        self.user_interrupted_generation = true;
    }

    /// Shows an error and says what is reported of it; `name` is the name of the model or
    /// agent.
    pub fn handle_thread_error(&mut self, error: ThreadError, name: &str) -> (r: ErrorTelemetry)
        ensures
            *final(self) == (ThreadView { thread_error: Some(error), ..*old(self) }),
            r.kind@ == callouts::error_kind(error),
            r.acp_error_code == (match error {
                ThreadError::Other { acp_error_code, .. } => acp_error_code,
                _ => None,
            }),
            r.message@ == callouts::reported_message(error, name@),
    {
        let telemetry = callouts::error_telemetry(&error, name);
        self.thread_error = Some(error);
        telemetry
    }

    /// Cancels the generation. `thread` is the thread once it was canceled; the list of
    /// entries shows the indicator as its status has it.
    pub fn cancel_generation(&mut self, thread: &AcpThread) -> (r: Option<Splice>)
        ensures
            *final(self) == canceled(*old(self), *thread),
            r == thread_indicator(*old(self), *thread),
    {
        self.thread_retry_status = None;
        self.thread_error = None;
        self.user_interrupted_generation = true;
        self.sync_generating_indicator(
            thread.status == ThreadStatus::Generating,
            thread.entries.len(),
        )
    }

    fn try_again(&mut self, thread: &AcpThread) -> (r: Option<Splice>)
        ensures
            *final(self) == retrying(*old(self), *thread),
            r == thread_indicator(*old(self), *thread),
    {
        self.thread_error = None;
        self.sync_generating_indicator(
            thread.status == ThreadStatus::Generating,
            thread.entries.len(),
        )
    }

    /// Hides the error and retries where the thread can. `thread` is the thread once it
    /// retries; the list of entries shows the indicator as its status has it.
    pub fn retry_generation(&mut self, can_retry: bool, thread: &AcpThread) -> (r: Option<Retry>)
        ensures
            r is Some <==> can_retry,
            match r {
                Some(retry) => {
                    &&& retry.event == AcpThreadViewEvent::Interacted
                    &&& retry.indicator == thread_indicator(*old(self), *thread)
                    &&& *final(self) == retrying(*old(self), *thread)
                },
                None => *final(self) == without_error(*old(self)),
            },
    {
        if !can_retry {
            self.thread_error = None;
            return None;
        }
        let indicator = self.try_again(thread);
        Some(Retry { event: AcpThreadViewEvent::Interacted, indicator })
    }

    /// Sends the user message at `entry_ix` again. Nothing happens while contents are loaded
    /// or where there is no user message with an identifier.
    pub fn regenerate(&mut self, entry_ix: usize, thread: &AcpThread) -> (r: Option<Regeneration>)
        ensures
            r is Some <==> !old(self).is_loading_contents && user_message_id(
                thread.entries@,
                entry_ix as int,
            ) is Some,
            match r {
                None => *final(self) == *old(self),
                Some(regeneration) => {
                    &&& Some(regeneration.user_message_id) == user_message_id(
                        thread.entries@,
                        entry_ix as int,
                    )
                    &&& regeneration.keep_earlier_edits == has_earlier_edits(
                        thread.entries@,
                        entry_ix as int,
                    )
                    &&& match regeneration.continuation {
                        Some(continuation) => continues_on_its_own(*old(self), *thread)
                            && continuation.prompt@ == continuation_prompt()
                            && continuation.sending == sending_of(*old(self), *thread)
                            && *final(self) == ready_to_send(*old(self)),
                        None => !continues_on_its_own(*old(self), *thread) && *final(self)
                            == *old(self),
                    }
                },
            },
    {
        if self.is_loading_contents || entry_ix >= thread.entries.len() {
            return None;
        }
        let id = match &thread.entries[entry_ix].content {
            EntryContent::UserMessage(message) => match &message.id {
                Some(id) => id.clone(),
                None => {
                    return None;
                },
            },
            _ => {
                return None;
            },
        };
        let mut keep_earlier_edits = false;
        let mut i: usize = 0;
        while i < entry_ix
            invariant
                i <= entry_ix < thread.entries@.len(),
                keep_earlier_edits == has_earlier_edits(thread.entries@, i as int),
            decreases entry_ix - i,
        {
            if entry_has_diff(&thread.entries[i]) {
                assert(has_diff(thread.entries@[i as int]));
                keep_earlier_edits = true;
            }
            proof {
                if has_earlier_edits(thread.entries@, i as int + 1) && !has_diff(
                    thread.entries@[i as int],
                ) {
                    let k = choose|k: int|
                        0 <= k < i + 1 && k < thread.entries@.len() && has_diff(
                            #[trigger] thread.entries@[k],
                        );
                    assert(k < i);
                }
                if has_earlier_edits(thread.entries@, i as int) {
                    let k = choose|k: int|
                        0 <= k < i && k < thread.entries@.len() && has_diff(
                            #[trigger] thread.entries@[k],
                        );
                    assert(has_diff(thread.entries@[k]));
                }
            }
            i = i + 1;
        }
        let continuation = self.maybe_auto_continue_on_outstanding_todos(thread);
        Some(Regeneration { user_message_id: id, keep_earlier_edits, continuation })
    }

    /// Continues with outstanding todos where nothing is queued and the agent is idle: gives
    /// the prompt that replaces what is in the editor and is sent.
    pub fn maybe_auto_continue_on_outstanding_todos(&mut self, thread: &AcpThread) -> (r: Option<
        Continuation,
    >)
        ensures
            match r {
                Some(continuation) => continues_on_its_own(*old(self), *thread)
                    && continuation.prompt@ == continuation_prompt() && continuation.sending
                    == sending_of(*old(self), *thread) && *final(self) == ready_to_send(
                    *old(self),
                ),
                None => !continues_on_its_own(*old(self), *thread) && *final(self) == *old(self),
            },
    {
        if self.has_queued_messages() {
            return None;
        }
        if thread.status != ThreadStatus::Idle {
            return None;
        }
        if !self.has_outstanding_todos(thread) {
            return None;
        }
        let sending = self.send_impl(thread);
        Some(
            Continuation {
                prompt: "The prompt queue is empty, but there is still outstanding work on the persistent todos surface (plan entries, pending approvals, background monitors, or Grok memory facts). Continue with the next highest-priority item. Keep the plan and todo_write calls up to date.",
                sending,
            },
        )
    }

    /// Decides what happens to the message in the editor when it is to be queued: an idle
    /// agent gets it at once.
    pub fn queue_message(&mut self, thread: &AcpThread) -> (r: Option<Sending>)
        ensures
            match r {
                Some(sending) => thread.status == ThreadStatus::Idle && *final(self)
                    == ready_to_send(*old(self)) && sending == sending_of(*old(self), *thread),
                None => thread.status != ThreadStatus::Idle && *final(self) == *old(self),
            },
    {
        if thread.status == ThreadStatus::Idle {
            Some(self.send_impl(thread))
        } else {
            None
        }
    }

    /// Starts a turn and gives its generation.
    pub fn start_turn(&mut self, now: u64) -> (generation: usize)
        requires
            old(self).turn_fields.turn_generation < usize::MAX,
        ensures
            *final(self) == (ThreadView {
                turn_fields: turn::started(old(self).turn_fields, now),
                ..*old(self)
            }),
            generation == final(self).turn_fields.turn_generation,
    {
        self.turn_fields.start(now)
    }

    /// Ends the turn of this generation; a later turn is left alone.
    pub fn stop_turn(&mut self, generation: usize, now: u64)
        ensures
            *final(self) == (ThreadView {
                turn_fields: turn::stopped(old(self).turn_fields, generation, now),
                ..*old(self)
            }),
    {
        self.turn_fields.stop(generation, now);
    }

    /// Counts the tokens of a turn that is under way, and gives what is reported of a limit
    /// that comes near.
    pub fn update_turn_tokens(&mut self, thread: &AcpThread) -> (r: Option<&'static str>)
        requires
            match (thread.token_usage, old(self).turn_fields.turn_tokens) {
                (Some(usage), Some(tokens)) => tokens + usage.output_tokens <= u64::MAX,
                _ => true,
            },
        ensures
            match (thread.token_usage, old(self).turn_fields.turn_tokens) {
                (Some(usage), Some(tokens)) => {
                    let report = turn::limit_report(
                        old(self).last_token_limit_telemetry,
                        thread.token_usage_ratio,
                    );
                    &&& *final(self) == (ThreadView {
                        turn_fields: turn::TurnFields {
                            turn_tokens: Some((tokens + usage.output_tokens) as u64),
                            ..old(self).turn_fields
                        },
                        last_token_limit_telemetry: report.0,
                        ..*old(self)
                    })
                    &&& r is Some <==> report.1
                    &&& r matches Some(word) ==> word@ == turn::limit_word(
                        thread.token_usage_ratio,
                    )
                },
                _ => *final(self) == *old(self) && r is None,
            },
    {
        match thread.token_usage {
            Some(usage) => match self.turn_fields.turn_tokens {
                Some(tokens) => {
                    self.turn_fields.turn_tokens = Some(tokens + usage.output_tokens);
                    self.emit_token_limit_telemetry_if_needed(thread)
                },
                None => None,
            },
            None => None,
        }
    }

    /// Reports a limit that comes nearer than what was reported before.
    pub fn emit_token_limit_telemetry_if_needed(&mut self, thread: &AcpThread) -> (r: Option<
        &'static str,
    >)
        ensures
            ({
                let report = turn::limit_report(
                    old(self).last_token_limit_telemetry,
                    thread.token_usage_ratio,
                );
                match thread.token_usage {
                    Some(_) => {
                        &&& *final(self) == (ThreadView {
                            last_token_limit_telemetry: report.0,
                            ..*old(self)
                        })
                        &&& r is Some <==> report.1
                        &&& r matches Some(word) ==> word@ == turn::limit_word(
                            thread.token_usage_ratio,
                        )
                    },
                    None => *final(self) == *old(self) && r is None,
                }
            }),
    {
        if thread.token_usage.is_none() {
            return None;
        }
        turn::report_limit(&mut self.last_token_limit_telemetry, thread.token_usage_ratio)
    }

    /// Takes the message that was not answered, in order to put it back into the editor after
    /// the user has authenticated.
    pub fn authenticate(&mut self) -> (r: Option<Vec<PromptBlock>>)
        ensures
            r == old(self).in_flight_prompt,
            *final(self) == (ThreadView {
                thread_error: None,
                thread_error_markdown: None,
                token_limit_callout_dismissed: true,
                in_flight_prompt: None,
                ..*old(self)
            }),
    {
        self.clear_thread_error();
        self.in_flight_prompt.take()
    }

    /// Hides the error and the callout about the token limit.
    pub fn clear_thread_error(&mut self)
        ensures
            *final(self) == (ThreadView {
                thread_error: None,
                thread_error_markdown: None,
                token_limit_callout_dismissed: true,
                ..*old(self)
            }),
    {
        self.thread_error = None;
        self.thread_error_markdown = None;
        self.token_limit_callout_dismissed = true;
    }
}

/// While contents are loaded, and with an empty editor and nothing to send from the queue, a
/// request to send does nothing. A message typed while the agent generates is never sent at
/// once, but queued.
pub proof fn sending_never_interrupts(view: ThreadView, input: SendInput)
    ensures
        view.is_loading_contents ==> send_choice(view, input) == SendChoice::Nothing,
        input.thread.status == ThreadStatus::Generating && !input.is_editor_empty
            && !view.is_loading_contents ==> send_choice(view, input) == SendChoice::Queue,
        send_choice(view, input) == SendChoice::Send ==> input.thread.status
            == ThreadStatus::Idle,
{
}

/// A message is sent once: from the moment it is on its way, further requests to send do
/// nothing until its contents were handed to the agent.
pub proof fn a_second_request_is_ignored(view: ThreadView, input: SendInput)
    ensures
        send_choice(ready_to_send(view), input) == SendChoice::Nothing,
{
}

/// The view continues on its own only while nothing is queued and the agent is idle, and
/// sending leaves the queue alone.
pub proof fn continuing_waits_for_the_queue(view: ThreadView, thread: AcpThread)
    ensures
        continues_on_its_own(view, thread) ==> view.local_queued_messages@.len() == 0
            && thread.status == ThreadStatus::Idle,
        ready_to_send(view).local_queued_messages == view.local_queued_messages,
{
}

/// A request to send asks to authenticate only where the trimmed text is one of the two login
/// commands and the agent has ways to authenticate. Every other text that an idle agent can take
/// is sent; a logout that the agent offers itself is sent, too.
pub proof fn only_login_commands_ask_to_authenticate(view: ThreadView, input: SendInput)
    requires
        !view.is_loading_contents,
        !input.is_editor_empty,
        input.thread.status == ThreadStatus::Idle,
    ensures
        send_choice(view, input) == SendChoice::Authenticate || send_choice(view, input)
            == SendChoice::Send,
        !input.can_login ==> send_choice(view, input) == SendChoice::Send,
        text::trimmed(input.text@) != "/login"@ && text::trimmed(input.text@) != "/logout"@
            ==> send_choice(view, input) == SendChoice::Send,
        input.can_login && text::trimmed(input.text@) == "/login"@ ==> send_choice(view, input)
            == SendChoice::Authenticate,
        input.can_login && text::trimmed(input.text@) == "/logout"@ ==> (send_choice(view, input)
            == SendChoice::Send <==> exists|i: int|
            0 <= i < input.available_commands@.len() && (#[trigger] input.available_commands@[i])@
                == "logout"@),
{
    reveal_strlit("/login");
    reveal_strlit("/logout");
    assert("/login"@.len() == 6);
    assert("/logout"@.len() == 7);
    let names = text::views(input.available_commands@);
    if names.contains("logout"@) {
        let i = choose|i: int| 0 <= i < names.len() && names[i] == "logout"@;
        assert(input.available_commands@[i]@ == "logout"@);
    }
    if exists|i: int|
        0 <= i < input.available_commands@.len() && (#[trigger] input.available_commands@[i])@
            == "logout"@ {
        let i = choose|i: int|
            0 <= i < input.available_commands@.len() && (#[trigger] input.available_commands@[i])@
                == "logout"@;
        assert(names[i] == "logout"@);
    }
}

/// What a request to send leads to outside of that: nothing while contents are loaded; with an
/// empty editor the first queued message, where the queue can be sent at once; and the queue
/// while the agent is at work. An ordinary message to an idle agent is sent.
pub proof fn a_request_to_send_does_one_thing(view: ThreadView, input: SendInput)
    ensures
        send_choice(view, input) == SendChoice::SendQueued <==> !view.is_loading_contents
            && input.is_editor_empty && view.can_fast_track_queue
            && view.local_queued_messages@.len() != 0,
        send_choice(view, input) == SendChoice::Queue <==> !view.is_loading_contents
            && !input.is_editor_empty && input.thread.status == ThreadStatus::Generating,
        send_choice(view, input) == SendChoice::Nothing <==> view.is_loading_contents || (
        input.is_editor_empty && (!view.can_fast_track_queue || view.local_queued_messages@.len()
            == 0)),
        send_choice(view, input) == SendChoice::Send || send_choice(view, input)
            == SendChoice::Authenticate ==> input.thread.status == ThreadStatus::Idle
            && !input.is_editor_empty,
{
}

/// The choice behind an action is the action without its details.
pub proof fn choices_are_actions_without_details(action: SendAction)
    ensures
        choice_of(action) == SendChoice::Nothing <==> action is Nothing,
        choice_of(action) == SendChoice::SendQueued <==> action is SendQueued,
        choice_of(action) == SendChoice::Queue <==> action is Queue,
        choice_of(action) == SendChoice::Authenticate <==> action is Authenticate,
        choice_of(action) == SendChoice::Send <==> action is Send,
{
}

/// What is known of a message that is sent: the workspace follows as the user asked for, and the
/// message is the first exactly where the thread has no entries.
pub proof fn sending_knows_the_thread(view: ThreadView, thread: AcpThread)
    ensures
        sending_of(view, thread).follow == view.should_be_following,
        sending_of(view, thread).is_first_message <==> thread.entries@ =~= Seq::empty(),
{
}

/// A message on its way takes the error, the rating and the message being edited away and blocks
/// further messages; everything else of the view stays.
pub proof fn sending_changes_four_things(view: ThreadView)
    ensures
        ({
            let ready = ready_to_send(view);
            &&& ready.thread_error is None
            &&& ready.thread_feedback.feedback is None
            &&& ready.thread_feedback.comments_editor is None
            &&& ready.editing_message is None
            &&& ready.is_loading_contents
            &&& view == (ThreadView {
                thread_error: view.thread_error,
                thread_feedback: view.thread_feedback,
                editing_message: view.editing_message,
                is_loading_contents: view.is_loading_contents,
                ..ready
            })
        }),
{
}

/// The texts of a title come from the blocks one by one: a text as it stands, a link by its name
/// behind an at sign, other blocks not at all.
pub proof fn titles_take_the_blocks_one_by_one(
    first: Seq<PromptBlock>,
    second: Seq<PromptBlock>,
    text: String,
    name: String,
    uri: String,
    number: u64,
)
    ensures
        title_parts(first + second) == title_parts(first) + title_parts(second),
        title_parts(seq![PromptBlock::Text(text)]) == seq![text@],
        title_parts(seq![PromptBlock::ResourceLink { name, uri }]) == seq![seq!['@'] + name@],
        title_parts(seq![PromptBlock::Other { number }]).len() == 0,
    decreases second.len(),
{
    reveal_strlit("@");
    assert("@"@ =~= seq!['@']);
    reveal_with_fuel(title_parts, 3);
    assert(seq![PromptBlock::Text(text)].drop_last() =~= seq![]);
    assert(title_parts(seq![PromptBlock::Text(text)]) =~= seq![text@]);
    let link = seq![PromptBlock::ResourceLink { name, uri }];
    assert(link.drop_last() =~= seq![]);
    assert(title_parts(link) =~= seq![seq!['@'] + name@]);
    assert(seq![PromptBlock::Other { number }].drop_last() =~= seq![]);
    if second.len() > 0 {
        titles_take_the_blocks_one_by_one(first, second.drop_last(), text, name, uri, number);
        assert((first + second).drop_last() =~= first + second.drop_last());
        assert((first + second).last() == second.last());
        assert(title_parts(first + second) =~= title_parts(first) + title_parts(second));
    } else {
        assert(first + second =~= first);
        assert(title_parts(first) + title_parts(second) =~= title_parts(first));
    }
}

/// A title is one line without white space at its ends, and it is the first line of the message:
/// the trimmed text itself for a message of one line.
pub proof fn a_title_is_the_first_line(blocks: Seq<PromptBlock>, text: String)
    ensures
        !title_text(blocks).contains('\n'),
        title_text(blocks).len() > 0 ==> !text::white_space(title_text(blocks)[0])
            && !text::white_space(title_text(blocks).last()),
        !text@.contains('\n') ==> title_text(seq![PromptBlock::Text(text)]) == text::trimmed(text@),
        title_text(blocks) == text::trimmed(
            text::before_first(text::joined(title_parts(blocks), seq![' ']), '\n'),
        ),
{
    reveal_strlit(" ");
    assert(" "@ =~= seq![' ']);
    let joined = text::joined(title_parts(blocks), " "@);
    let line = text::before_first(joined, '\n');
    text::cutting_at_the_first(joined, '\n');
    let bounds = text::trimming_takes_the_white_space_at_both_ends(line);
    let title = title_text(blocks);
    assert forall|i: int| 0 <= i < title.len() implies title[i] != '\n' by {
        assert(title[i] == line[bounds.0 + i]);
        assert(line.contains(line[bounds.0 + i]));
    }
    titles_take_the_blocks_one_by_one(seq![], seq![], text, text, text, 0);
    text::joining_goes_part_by_part(seq![], seq![], text@, " "@);
    if !text@.contains('\n') {
        text::cutting_at_the_first(text@, '\n');
    }
}

/// A message can be sent again by its identifier exactly where the entry is a message of the
/// user that has one.
pub proof fn messages_are_found_by_their_place(
    entries: Seq<AgentThreadEntry>,
    index: int,
    message: model::UserMessage,
)
    requires
        0 <= index < entries.len(),
    ensures
        entries[index].content == EntryContent::UserMessage(message) ==> user_message_id(
            entries,
            index,
        ) == message.id,
        !(entries[index].content is UserMessage) ==> user_message_id(entries, index) is None,
        user_message_id(entries, entries.len() as int) is None,
{
}

/// Earlier edits are kept exactly where an entry before the message is a call with a diff.
pub proof fn earlier_edits_are_those_before_the_message(
    entries: Seq<AgentThreadEntry>,
    n: int,
    i: int,
    call: model::ToolCall,
    k: int,
)
    requires
        0 <= n <= entries.len(),
    ensures
        0 <= i < n && entries[i].content == EntryContent::ToolCall(call) && 0 <= k
            < call.content@.len() && call.content@[k] is Diff ==> has_earlier_edits(entries, n),
        (forall|j: int| 0 <= j < n ==> !((#[trigger] entries[j]).content is ToolCall))
            ==> !has_earlier_edits(entries, n),
        (forall|j: int, m: int|
            0 <= j < n && entries[j].content is ToolCall && 0 <= m
                < entries[j].content->ToolCall_0.content@.len() ==> !((
            #[trigger] entries[j].content->ToolCall_0.content@[m]) is Diff)) ==> !has_earlier_edits(
            entries,
            n,
        ),
{
    if 0 <= i < n && entries[i].content == EntryContent::ToolCall(call) && 0 <= k
        < call.content@.len() && call.content@[k] is Diff {
        let place = model::the_first_diff_is_among_the_output(call.content@);
        assert(has_diff(entries[i]));
    }
    if has_earlier_edits(entries, n) {
        let j = choose|j: int| 0 <= j < n && j < entries.len() && has_diff(#[trigger] entries[j]);
        let found = entries[j].content->ToolCall_0;
        let place = model::the_first_diff_is_among_the_output(found.content@);
        assert(entries[j].content->ToolCall_0.content@[place] is Diff);
    }
}

/// The view continues on its own exactly where nothing is queued, the agent is idle and there is
/// work left.
pub proof fn continuing_takes_an_idle_agent_with_work(view: ThreadView, thread: AcpThread)
    ensures
        continues_on_its_own(view, thread) <==> view.local_queued_messages@.len() == 0
            && thread.status != ThreadStatus::Generating && thread.has_outstanding_todos,
{
}

/// Canceling takes the error and the retry away, remembers that the user has interrupted, and
/// shows the indicator as the thread has it; everything else of the view stays.
pub proof fn canceling_changes_four_things(view: ThreadView, thread: AcpThread)
    ensures
        ({
            let after = canceled(view, thread);
            &&& after.thread_retry_status is None
            &&& after.thread_error is None
            &&& after.user_interrupted_generation
            &&& after.generating_indicator_in_list <==> thread.status == ThreadStatus::Generating
            &&& view == (ThreadView {
                thread_retry_status: view.thread_retry_status,
                thread_error: view.thread_error,
                user_interrupted_generation: view.user_interrupted_generation,
                generating_indicator_in_list: view.generating_indicator_in_list,
                ..after
            })
        }),
{
}

/// Retrying takes the error away and shows the indicator as the thread has it; without a retry
/// only the error goes. Everything else of the view stays.
pub proof fn retrying_takes_the_error_away(view: ThreadView, thread: AcpThread)
    ensures
        retrying(view, thread).thread_error is None,
        retrying(view, thread).generating_indicator_in_list <==> thread.status
            == ThreadStatus::Generating,
        view == (ThreadView {
            thread_error: view.thread_error,
            generating_indicator_in_list: view.generating_indicator_in_list,
            ..retrying(view, thread)
        }),
        without_error(view).thread_error is None,
        view == (ThreadView { thread_error: view.thread_error, ..without_error(view) }),
{
}

/// After the list was synchronised with the thread, it has an item for each entry, and one more
/// behind them while the agent generates.
pub proof fn the_list_shows_the_status_of_the_thread(view: ThreadView, thread: AcpThread)
    requires
        thread.entries@.len() < usize::MAX,
    ensures
        ({
            let entries = thread.entries@.len() as int;
            let before = entries + (if view.generating_indicator_in_list {
                1int
            } else {
                0int
            });
            let expected = entries + (if thread.status == ThreadStatus::Generating {
                1int
            } else {
                0int
            });
            match thread_indicator(view, thread) {
                Some(splice) => splice.start == entries && before - splice.removed + splice.count
                    == expected,
                None => before == expected,
            }
        }),
{
}

/// The prompt that continues names the work that is left and asks to keep the plan up to date.
pub proof fn the_continuation_asks_for_the_next_item()
    ensures
        continuation_prompt() == "The prompt queue is empty, but there is still outstanding work on the persistent todos surface (plan entries, pending approvals, background monitors, or Grok memory facts). Continue with the next highest-priority item. Keep the plan and todo_write calls up to date."@,
{
}

} // verus!
