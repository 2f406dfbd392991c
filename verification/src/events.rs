//! What the editors and the entries of a view report to it, and how it answers.

use crate::keyed::{KeySet, Keyed};
use crate::model::{AcpThread, EntryContent, ToolCallId};
use crate::text;
use crate::thread_view::ThreadView;
use vstd::prelude::*;
use vstd::string::*;

verus! {

/// What happens in a message editor.
#[derive(Clone, Copy, PartialEq, Eq, Structural, Debug)]
pub enum MessageEditorEvent {
    Send,
    SendImmediately,
    Cancel,
    Focus,
    LostFocus,
    SlashAutocompleteOpened,
    InputAttempted,
}

/// What the view does about an event of the main message editor.
#[derive(Clone, Copy, PartialEq, Eq, Structural, Debug)]
pub enum MessageEditorAction {
    Nothing,
    Send,
    InterruptAndSend,
    CancelGeneration,
    CancelEditing,
}

/// The answer to an event of the main message editor.
#[derive(Clone, Copy, PartialEq, Eq, Structural, Debug)]
pub struct MessageEditorResponse {
    /// Whether a native connection starts to scan for skills.
    pub scan_skills: bool,
    /// Whether it also refreshes those of the project.
    pub refresh_project_skills: bool,
    pub action: MessageEditorAction,
}

/// Whether the event is one of the three that start a scan for skills.
pub open spec fn triggers_scan(event: MessageEditorEvent) -> bool {
    event == MessageEditorEvent::Focus || event == MessageEditorEvent::SlashAutocompleteOpened
        || event == MessageEditorEvent::Send
}

/// What the view does about an event of the main message editor.
pub open spec fn editor_action(event: MessageEditorEvent) -> MessageEditorAction {
    match event {
        MessageEditorEvent::Send => MessageEditorAction::Send,
        MessageEditorEvent::SendImmediately => MessageEditorAction::InterruptAndSend,
        MessageEditorEvent::Cancel => MessageEditorAction::CancelGeneration,
        MessageEditorEvent::Focus => MessageEditorAction::CancelEditing,
        MessageEditorEvent::LostFocus => MessageEditorAction::Nothing,
        MessageEditorEvent::SlashAutocompleteOpened => MessageEditorAction::Nothing,
        MessageEditorEvent::InputAttempted => MessageEditorAction::Nothing,
    }
}

/// What happens in the view of an entry.
pub enum ViewEvent {
    NewDiff(ToolCallId),
    NewTerminal(ToolCallId),
    TerminalMovedToBackground(ToolCallId),
    /// An event of the editor of a message, with the text in the editor.
    MessageEditorEvent(MessageEditorEvent, String),
    OpenDiffLocation { split: bool },
}

/// What the view does about an event of an entry.
#[derive(Clone, Copy, PartialEq, Eq, Structural, Debug)]
pub enum EntryAction {
    Nothing,
    Notify,
    /// The message of the entry is sent again.
    Regenerate(usize),
    CancelEditing,
    OpenDiffLocation { split: bool },
}

/// The settings that decide which cards start expanded.
#[derive(Clone, Copy, PartialEq, Eq, Structural, Debug)]
pub struct CardSettings {
    pub expand_edit_card: bool,
    pub expand_terminal_card: bool,
}

/// Whether the message at `index` can be edited: it is a message of the user with an
/// identifier, in a thread that can restart from there and is not that of a subagent.
pub open spec fn is_editable(view: ThreadView, thread: AcpThread, index: int) -> bool {
    &&& 0 <= index < thread.entries@.len()
    &&& thread.entries@[index].content matches EntryContent::UserMessage(message)
        && message.id is Some
    &&& thread.supports_truncate
    &&& view.parent_session_id is None
}

/// The Markdown of the user message at `index`.
pub open spec fn message_markdown(thread: AcpThread, index: int) -> Seq<char> {
    match thread.entries@[index].content {
        EntryContent::UserMessage(message) => message.markdown@,
        _ => seq![],
    }
}

/// What the view does about an event of an entry.
pub open spec fn entry_action(
    view: ThreadView,
    thread: AcpThread,
    index: usize,
    event: ViewEvent,
) -> EntryAction {
    match event {
        ViewEvent::NewDiff(_) => EntryAction::Nothing,
        ViewEvent::NewTerminal(_) => EntryAction::Nothing,
        ViewEvent::TerminalMovedToBackground(_) => EntryAction::Nothing,
        ViewEvent::MessageEditorEvent(MessageEditorEvent::Focus, _) => if is_editable(
            view,
            thread,
            index as int,
        ) {
            EntryAction::Notify
        } else {
            EntryAction::Nothing
        },
        ViewEvent::MessageEditorEvent(MessageEditorEvent::LostFocus, text) => if is_editable(
            view,
            thread,
            index as int,
        ) && text@ == message_markdown(thread, index as int) {
            EntryAction::Notify
        } else {
            EntryAction::Nothing
        },
        ViewEvent::MessageEditorEvent(MessageEditorEvent::Send, _) => if view.parent_session_id
            is None {
            EntryAction::Regenerate(index)
        } else {
            EntryAction::Nothing
        },
        ViewEvent::MessageEditorEvent(MessageEditorEvent::Cancel, _) => EntryAction::CancelEditing,
        ViewEvent::MessageEditorEvent(_, _) => EntryAction::Nothing,
        ViewEvent::OpenDiffLocation { split } => EntryAction::OpenDiffLocation { split },
    }
}

/// The tool calls that are expanded after an event of an entry.
pub open spec fn expanded_after(
    expanded: Set<Seq<char>>,
    event: ViewEvent,
    settings: CardSettings,
) -> Set<Seq<char>> {
    match event {
        ViewEvent::NewDiff(id) => if settings.expand_edit_card {
            expanded.insert(id.key())
        } else {
            expanded
        },
        ViewEvent::NewTerminal(id) => if settings.expand_terminal_card {
            expanded.insert(id.key())
        } else {
            expanded
        },
        ViewEvent::TerminalMovedToBackground(id) => expanded.remove(id.key()),
        _ => expanded,
    }
}

/// The message that is being edited after an event of an entry.
pub open spec fn editing_after(
    view: ThreadView,
    thread: AcpThread,
    index: usize,
    event: ViewEvent,
) -> Option<usize> {
    match event {
        ViewEvent::MessageEditorEvent(MessageEditorEvent::Focus, _) => if is_editable(
            view,
            thread,
            index as int,
        ) {
            Some(index)
        } else {
            view.editing_message
        },
        ViewEvent::MessageEditorEvent(MessageEditorEvent::LostFocus, text) => if is_editable(
            view,
            thread,
            index as int,
        ) && text@ == message_markdown(thread, index as int) {
            None
        } else {
            view.editing_message
        },
        _ => view.editing_message,
    }
}

fn expand_cards(expanded: &mut KeySet<ToolCallId>, event: ViewEvent, settings: CardSettings)
    ensures
        final(expanded)@ == expanded_after(old(expanded)@, event, settings),
{
    match event {
        ViewEvent::NewDiff(id) => {
            if settings.expand_edit_card {
                expanded.insert(id);
            }
        },
        ViewEvent::NewTerminal(id) => {
            if settings.expand_terminal_card {
                expanded.insert(id);
            }
        },
        ViewEvent::TerminalMovedToBackground(id) => {
            expanded.remove(&id);
        },
        ViewEvent::MessageEditorEvent(_, _) => {},
        ViewEvent::OpenDiffLocation { .. } => {},
    }
}

impl ThreadView {
    /// The answer to an event of the main message editor.
    pub fn handle_message_editor_event(
        &self,
        event: MessageEditorEvent,
        has_native_connection: bool,
        has_project: bool,
    ) -> (r: MessageEditorResponse)
        ensures
            r == (MessageEditorResponse {
                scan_skills: triggers_scan(event) && has_native_connection,
                refresh_project_skills: triggers_scan(event) && has_native_connection && has_project,
                action: editor_action(event),
            }),
    {
        let triggers = matches!(
            event,
            MessageEditorEvent::Focus
                | MessageEditorEvent::SlashAutocompleteOpened
                | MessageEditorEvent::Send
        );
        let action = match event {
            MessageEditorEvent::Send => MessageEditorAction::Send,
            MessageEditorEvent::SendImmediately => MessageEditorAction::InterruptAndSend,
            MessageEditorEvent::Cancel => MessageEditorAction::CancelGeneration,
            MessageEditorEvent::Focus => MessageEditorAction::CancelEditing,
            MessageEditorEvent::LostFocus => MessageEditorAction::Nothing,
            MessageEditorEvent::SlashAutocompleteOpened => MessageEditorAction::Nothing,
            MessageEditorEvent::InputAttempted => MessageEditorAction::Nothing,
        };
        MessageEditorResponse {
            scan_skills: triggers && has_native_connection,
            refresh_project_skills: triggers && has_native_connection && has_project,
            action,
        }
    }

    fn editable_markdown<'a>(&self, thread: &'a AcpThread, index: usize) -> (r: Option<&'a String>)
        ensures
            r is Some <==> is_editable(*self, *thread, index as int),
            r matches Some(markdown) ==> markdown@ == message_markdown(*thread, index as int),
    {
        if index >= thread.entries.len() || !thread.supports_truncate || self.is_subagent() {
            return None;
        }
        match &thread.entries[index].content {
            EntryContent::UserMessage(message) => if message.id.is_some() {
                Some(&message.markdown)
            } else {
                None
            },
            _ => None,
        }
    }

    fn decide_entry_event(&self, thread: &AcpThread, index: usize, event: &ViewEvent) -> (r: (
        EntryAction,
        Option<usize>,
    ))
        ensures
            r.0 == entry_action(*self, *thread, index, *event),
            r.1 == editing_after(*self, *thread, index, *event),
    {
        let editing = self.editing_message;
        match event {
            ViewEvent::NewDiff(_) => (EntryAction::Nothing, editing),
            ViewEvent::NewTerminal(_) => (EntryAction::Nothing, editing),
            ViewEvent::TerminalMovedToBackground(_) => (EntryAction::Nothing, editing),
            ViewEvent::MessageEditorEvent(editor_event, text) => match editor_event {
                MessageEditorEvent::Focus => {
                    if self.editable_markdown(thread, index).is_some() {
                        (EntryAction::Notify, Some(index))
                    } else {
                        (EntryAction::Nothing, editing)
                    }
                },
                MessageEditorEvent::LostFocus => match self.editable_markdown(thread, index) {
                    Some(markdown) => {
                        if text::same_text(text.as_str(), markdown.as_str()) {
                            (EntryAction::Notify, None)
                        } else {
                            (EntryAction::Nothing, editing)
                        }
                    },
                    None => (EntryAction::Nothing, editing),
                },
                MessageEditorEvent::Send => {
                    if self.is_subagent() {
                        (EntryAction::Nothing, editing)
                    } else {
                        (EntryAction::Regenerate(index), editing)
                    }
                },
                MessageEditorEvent::Cancel => (EntryAction::CancelEditing, editing),
                MessageEditorEvent::SendImmediately => (EntryAction::Nothing, editing),
                MessageEditorEvent::SlashAutocompleteOpened => (EntryAction::Nothing, editing),
                MessageEditorEvent::InputAttempted => (EntryAction::Nothing, editing),
            },
            ViewEvent::OpenDiffLocation { split } => (
                EntryAction::OpenDiffLocation { split: *split },
                editing,
            ),
        }
    }

    /// The answer to an event of the entry at `index`.
    pub fn handle_entry_view_event(
        &mut self,
        thread: &AcpThread,
        index: usize,
        event: ViewEvent,
        settings: CardSettings,
    ) -> (r: EntryAction)
        ensures
            r == entry_action(*old(self), *thread, index, event),
            *final(self) == (ThreadView {
                expanded_tool_calls: final(self).expanded_tool_calls,
                editing_message: editing_after(*old(self), *thread, index, event),
                ..*old(self)
            }),
            final(self).expanded_tool_calls@ == expanded_after(
                old(self).expanded_tool_calls@,
                event,
                settings,
            ),
    {
        let (action, editing) = self.decide_entry_event(thread, index, &event);
        self.editing_message = editing;
        expand_cards(&mut self.expanded_tool_calls, event, settings);
        action
    }
}

/// Skills are looked for when the editor gets the focus, when commands are completed and when a
/// message is sent, and at no other event.
pub proof fn three_events_look_for_skills(event: MessageEditorEvent)
    ensures
        !triggers_scan(event) <==> event == MessageEditorEvent::SendImmediately || event
            == MessageEditorEvent::Cancel || event == MessageEditorEvent::LostFocus || event
            == MessageEditorEvent::InputAttempted,
{
}

/// The main editor sends, interrupts, cancels and ends the editing of a message, each at its own
/// event only.
pub proof fn the_main_editor_acts_on_its_events(event: MessageEditorEvent)
    ensures
        editor_action(event) == MessageEditorAction::Send <==> event == MessageEditorEvent::Send,
        editor_action(event) == MessageEditorAction::InterruptAndSend <==> event
            == MessageEditorEvent::SendImmediately,
        editor_action(event) == MessageEditorAction::CancelGeneration <==> event
            == MessageEditorEvent::Cancel,
        editor_action(event) == MessageEditorAction::CancelEditing <==> event
            == MessageEditorEvent::Focus,
{
}

/// A message can be edited in a thread of its own that can restart from it, and only where it
/// has an identifier.
pub proof fn messages_with_identifiers_can_be_edited(
    view: ThreadView,
    thread: AcpThread,
    index: int,
)
    requires
        0 <= index < thread.entries@.len(),
    ensures
        is_editable(view, thread, index) ==> thread.supports_truncate && view.parent_session_id
            is None && thread.entries@[index].content is UserMessage
            && thread.entries@[index].content->UserMessage_0.id is Some,
        thread.supports_truncate && view.parent_session_id is None
            && thread.entries@[index].content is UserMessage
            && thread.entries@[index].content->UserMessage_0.id is Some ==> is_editable(
            view,
            thread,
            index,
        ),
        !is_editable(view, thread, thread.entries@.len() as int),
        thread.entries@[index].content is UserMessage ==> message_markdown(thread, index)
            == thread.entries@[index].content->UserMessage_0.markdown@,
{
}

/// A message that gets the focus is being edited, where it can be. The editing ends where it
/// loses the focus unchanged, and goes on where it was changed. Other events do not touch it.
pub proof fn editing_starts_with_the_focus_and_ends_unchanged(
    view: ThreadView,
    thread: AcpThread,
    index: usize,
    text: String,
    event: ViewEvent,
)
    ensures
        is_editable(view, thread, index as int) ==> {
            let focused = ViewEvent::MessageEditorEvent(MessageEditorEvent::Focus, text);
            let left = ViewEvent::MessageEditorEvent(MessageEditorEvent::LostFocus, text);
            &&& editing_after(view, thread, index, focused) == Some(index)
            &&& entry_action(view, thread, index, focused) == EntryAction::Notify
            &&& text@ == message_markdown(thread, index as int) ==> editing_after(
                view,
                thread,
                index,
                left,
            ) is None && entry_action(view, thread, index, left) == EntryAction::Notify
            &&& text@ != message_markdown(thread, index as int) ==> editing_after(
                view,
                thread,
                index,
                left,
            ) == view.editing_message && entry_action(view, thread, index, left)
                == EntryAction::Nothing
        },
        !is_editable(view, thread, index as int) ==> editing_after(view, thread, index, event)
            == view.editing_message,
        !(event matches ViewEvent::MessageEditorEvent(MessageEditorEvent::Focus, _)) && !(
        event matches ViewEvent::MessageEditorEvent(MessageEditorEvent::LostFocus, _))
            ==> editing_after(view, thread, index, event) == view.editing_message,
{
}

/// What the view does about an entry: a message is sent again from a root thread only, editing is
/// canceled where the user asks for that, and the place of a diff is opened as asked.
pub proof fn entries_are_acted_on_as_asked(
    view: ThreadView,
    thread: AcpThread,
    index: usize,
    event: ViewEvent,
    text: String,
    split: bool,
)
    ensures
        entry_action(
            view,
            thread,
            index,
            ViewEvent::MessageEditorEvent(MessageEditorEvent::Send, text),
        ) == (if view.parent_session_id is Some {
            EntryAction::Nothing
        } else {
            EntryAction::Regenerate(index)
        }),
        entry_action(view, thread, index, event) is Regenerate ==> (event matches
            ViewEvent::MessageEditorEvent(MessageEditorEvent::Send, _)) && view.parent_session_id
            is None,
        entry_action(view, thread, index, event) is CancelEditing <==> (event matches
            ViewEvent::MessageEditorEvent(MessageEditorEvent::Cancel, _)),
        entry_action(view, thread, index, ViewEvent::OpenDiffLocation { split }) == (
        EntryAction::OpenDiffLocation { split }),
        entry_action(view, thread, index, event) is OpenDiffLocation <==> event
            is OpenDiffLocation,
        entry_action(view, thread, index, event) is Notify ==> is_editable(
            view,
            thread,
            index as int,
        ),
{
}

/// A new diff or terminal is expanded where the settings ask for that, one that moves to the
/// background is collapsed, and no other call changes.
pub proof fn cards_expand_by_the_settings(
    expanded: Set<Seq<char>>,
    id: ToolCallId,
    other: Seq<char>,
    event: ViewEvent,
    settings: CardSettings,
)
    ensures
        settings.expand_edit_card ==> expanded_after(
            expanded,
            ViewEvent::NewDiff(id),
            settings,
        ).contains(id.value@),
        !settings.expand_edit_card ==> expanded_after(expanded, ViewEvent::NewDiff(id), settings)
            == expanded,
        settings.expand_terminal_card ==> expanded_after(
            expanded,
            ViewEvent::NewTerminal(id),
            settings,
        ).contains(id.value@),
        !settings.expand_terminal_card ==> expanded_after(
            expanded,
            ViewEvent::NewTerminal(id),
            settings,
        ) == expanded,
        !expanded_after(
            expanded,
            ViewEvent::TerminalMovedToBackground(id),
            settings,
        ).contains(id.value@),
        event is MessageEditorEvent || event is OpenDiffLocation ==> expanded_after(
            expanded,
            event,
            settings,
        ) == expanded,
        other != id.value@ && (event == ViewEvent::NewDiff(id) || event == ViewEvent::NewTerminal(
            id,
        ) || event == ViewEvent::TerminalMovedToBackground(id)) ==> expanded_after(
            expanded,
            event,
            settings,
        ).contains(other) == expanded.contains(other),
{
}

} // verus!
