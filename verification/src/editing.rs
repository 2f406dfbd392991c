//! Editing messages and titles, and the size of the message editor.

use crate::model::{AcpThread, PromptBlock};
use crate::model;
use crate::text;
use crate::thread_view::ThreadView;
use vstd::prelude::*;
use vstd::string::*;

verus! {

/// How the message editor takes up space.
#[derive(Clone, Copy, PartialEq, Eq, Structural, Debug)]
pub enum EditorMode {
    /// All the space there is; the flag says whether to leave out the margin below.
    Full { excludes_overscroll_margin: bool },
    AutoHeight { min_lines: usize, max_lines: Option<usize> },
}

/// The settings of the message editor.
#[derive(Clone, Copy, PartialEq, Eq, Structural, Debug)]
pub struct EditorLines {
    pub min_lines: usize,
    pub max_lines: usize,
}

/// The mode of an editor that is expanded or not.
pub open spec fn expanded_mode(is_expanded: bool, lines: EditorLines) -> EditorMode {
    if is_expanded {
        EditorMode::Full { excludes_overscroll_margin: true }
    } else {
        EditorMode::AutoHeight { min_lines: lines.min_lines, max_lines: Some(lines.max_lines) }
    }
}

/// The mode of the message editor: it fills a thread without messages.
pub open spec fn empty_state_mode(item_count: nat, lines: EditorLines) -> EditorMode {
    if item_count > 0 {
        EditorMode::AutoHeight { min_lines: lines.min_lines, max_lines: Some(lines.max_lines) }
    } else {
        EditorMode::Full { excludes_overscroll_margin: false }
    }
}

/// What takes the focus of a view.
#[derive(Clone, Copy, PartialEq, Eq, Structural, Debug)]
pub enum FocusTarget {
    /// The view of a subagent, which has no editor.
    View,
    /// The editor of the message being edited.
    Entry(usize),
    /// The editor for a new message.
    MessageEditor,
}

/// What happens in the title editor.
#[derive(Clone, Copy, PartialEq, Eq, Structural, Debug)]
pub enum TitleEditorEvent {
    BufferEdited,
    Blurred,
    Other,
}

/// What an event of the title editor leads to.
pub enum TitleAction {
    Nothing,
    Rename(String),
    /// The editor gets the default title.
    ShowDefault,
}

/// What renaming a thread leads to.
#[derive(Clone, Copy, PartialEq, Eq, Structural, Debug)]
pub struct RenameAction {
    /// Whether the title editor gets the new title.
    pub set_editor_text: bool,
    /// Whether the new title is kept in the metadata of the root thread.
    pub override_title: bool,
    /// Whether the thread gets the new title.
    pub set_title: bool,
}

/// A part of the list of entries that is replaced.
#[derive(Clone, Copy, PartialEq, Eq, Structural, Debug)]
pub struct Splice {
    pub start: usize,
    /// How many items leave the list.
    pub removed: usize,
    /// How many items take their place.
    pub count: usize,
}

/// How many items the indicator takes up in the list.
pub open spec fn indicator_items(is_in_list: bool) -> int {
    if is_in_list {
        1
    } else {
        0
    }
}

/// The part of the list that is replaced so that it shows the indicator or not.
pub open spec fn indicator_splice(
    was_in_list: bool,
    is_generating: bool,
    entries_count: usize,
) -> Option<Splice> {
    if is_generating == was_in_list {
        None
    } else if is_generating {
        Some(Splice { start: entries_count, removed: 0, count: 1 })
    } else {
        Some(Splice { start: entries_count, removed: 1, count: 0 })
    }
}

impl ThreadView {
    /// Makes the message editor large or small. Nothing happens in a thread without messages;
    /// gives the new mode of the editor.
    pub fn expand_message_editor(&mut self, item_count: usize, lines: EditorLines) -> (r: Option<
        EditorMode,
    >)
        ensures
            match r {
                Some(mode) => item_count > 0 && *final(self) == (ThreadView {
                    editor_expanded: !old(self).editor_expanded,
                    ..*old(self)
                }) && mode == expanded_mode(!old(self).editor_expanded, lines),
                None => item_count == 0 && *final(self) == *old(self),
            },
    {
        if item_count == 0 {
            return None;
        }
        Some(self.set_editor_is_expanded(!self.editor_expanded, lines))
    }

    /// Makes the message editor large or small and gives its new mode.
    pub fn set_editor_is_expanded(&mut self, is_expanded: bool, lines: EditorLines) -> (r:
        EditorMode)
        ensures
            *final(self) == (ThreadView { editor_expanded: is_expanded, ..*old(self) }),
            r == expanded_mode(is_expanded, lines),
    {
        self.editor_expanded = is_expanded;
        if is_expanded {
            EditorMode::Full { excludes_overscroll_margin: true }
        } else {
            EditorMode::AutoHeight { min_lines: lines.min_lines, max_lines: Some(lines.max_lines) }
        }
    }

    /// The mode of the message editor: it fills a thread without messages.
    pub fn sync_editor_mode_for_empty_state(&self, item_count: usize, lines: EditorLines) -> (r:
        EditorMode)
        ensures
            r == empty_state_mode(item_count as nat, lines),
    {
        if item_count > 0 {
            EditorMode::AutoHeight { min_lines: lines.min_lines, max_lines: Some(lines.max_lines) }
        } else {
            EditorMode::Full { excludes_overscroll_margin: false }
        }
    }

    /// Adds an item for the generating indicator behind the entries while the agent
    /// generates, and takes it out after that.
    pub fn sync_generating_indicator(&mut self, is_generating: bool, entries_count: usize) -> (r:
        Option<Splice>)
        ensures
            *final(self) == (ThreadView {
                generating_indicator_in_list: is_generating,
                ..*old(self)
            }),
            r == indicator_splice(
                old(self).generating_indicator_in_list,
                is_generating,
                entries_count,
            ),
    {
        if is_generating && !self.generating_indicator_in_list {
            self.generating_indicator_in_list = true;
            Some(Splice { start: entries_count, removed: 0, count: 1 })
        } else if !is_generating && self.generating_indicator_in_list {
            self.generating_indicator_in_list = false;
            Some(Splice { start: entries_count, removed: 1, count: 0 })
        } else {
            None
        }
    }

    /// What an event of the title editor leads to. Only the user's own edits rename the
    /// thread, and never to nothing.
    pub fn handle_title_editor_event(
        &self,
        event: TitleEditorEvent,
        is_focused: bool,
        title: &str,
    ) -> (r: TitleAction)
        ensures
            match r {
                TitleAction::Rename(new_title) => event == TitleEditorEvent::BufferEdited
                    && is_focused && title@.len() > 0 && new_title@ == title@,
                TitleAction::ShowDefault => event == TitleEditorEvent::Blurred && title@.len() == 0,
                TitleAction::Nothing => !(event == TitleEditorEvent::BufferEdited && is_focused
                    && title@.len() > 0) && !(event == TitleEditorEvent::Blurred && title@.len()
                    == 0),
            },
    {
        match event {
            TitleEditorEvent::BufferEdited => {
                if !is_focused {
                    return TitleAction::Nothing;
                }
                if title.is_empty() {
                    return TitleAction::Nothing;
                }
                TitleAction::Rename(title.to_owned())
            },
            TitleEditorEvent::Blurred => {
                if title.is_empty() {
                    TitleAction::ShowDefault
                } else {
                    TitleAction::Nothing
                }
            },
            TitleEditorEvent::Other => TitleAction::Nothing,
        }
    }

    /// What renaming the thread leads to.
    pub fn rename(
        &self,
        title: &str,
        editor_text: &str,
        has_metadata_store: bool,
        can_set_title: bool,
    ) -> (r: RenameAction)
        ensures
            r == (RenameAction {
                set_editor_text: editor_text@ != title@,
                override_title: has_metadata_store && self.parent_session_id is None,
                set_title: can_set_title,
            }),
    {
        let set_editor_text = !text::same_text(editor_text, title);
        let applied = self.apply_renamed_title(has_metadata_store, can_set_title);
        RenameAction {
            set_editor_text,
            override_title: applied.override_title,
            set_title: applied.set_title,
        }
    }

    /// Where a new title is kept: in the metadata of a root thread, and in the thread itself
    /// where it can have one.
    pub fn apply_renamed_title(&self, has_metadata_store: bool, can_set_title: bool) -> (r:
        RenameAction)
        ensures
            r == (RenameAction {
                set_editor_text: false,
                override_title: has_metadata_store && self.parent_session_id is None,
                set_title: can_set_title,
            }),
    {
        RenameAction {
            set_editor_text: false,
            override_title: has_metadata_store && !self.is_subagent(),
            set_title: can_set_title,
        }
    }

    /// Stops editing a message. Gives the entry whose editor gets the message back, where the
    /// entry has an editor and is a message of the user.
    pub fn cancel_editing(&mut self, thread: &AcpThread, edited_entry_has_editor: bool) -> (r:
        Option<usize>)
        ensures
            *final(self) == (ThreadView { editing_message: None, ..*old(self) }),
            r == (match old(self).editing_message {
                Some(index) => if edited_entry_has_editor && index < thread.entries@.len()
                    && model::is_user_message(thread.entries@[index as int]) {
                    Some(index)
                } else {
                    None
                },
                None => None,
            }),
    {
        match self.editing_message.take() {
            Some(index) => {
                if edited_entry_has_editor && index < thread.entries.len()
                    && thread.entries[index].is_user_message() {
                    Some(index)
                } else {
                    None
                }
            },
            None => None,
        }
    }

    /// The entry whose editor is active: the message being edited, where it has an editor.
    /// Nothing stands for the editor for a new message.
    pub fn active_editor(&self, edited_entry_has_editor: bool) -> (r: Option<usize>)
        ensures
            r == (if edited_entry_has_editor {
                self.editing_message
            } else {
                None
            }),
    {
        if edited_entry_has_editor {
            self.editing_message
        } else {
            None
        }
    }

    /// What takes the focus: the view of a subagent itself, else the active editor.
    pub fn focus_handle(&self, edited_entry_has_editor: bool) -> (r: FocusTarget)
        ensures
            r == (if self.parent_session_id is Some {
                FocusTarget::View
            } else {
                match self.editing_message {
                    Some(index) if edited_entry_has_editor => FocusTarget::Entry(index),
                    _ => FocusTarget::MessageEditor,
                }
            }),
    {
        if self.is_subagent() {
            FocusTarget::View
        } else {
            match self.active_editor(edited_entry_has_editor) {
                Some(index) => FocusTarget::Entry(index),
                None => FocusTarget::MessageEditor,
            }
        }
    }

    /// What is inserted into a prompt to add a text: on a new line, unless the prompt is blank.
    pub fn send_agent_text_to_prompt(&self, prompt: &str, text: &str) -> (r: String)
        ensures
            r@ == (if text::blank(prompt@) {
                text@
            } else {
                "\n"@ + text@
            }),
    {
        if text::is_blank(prompt) {
            text.to_owned()
        } else {
            text::concat2("\n", text)
        }
    }
}

/// The draft that is kept of a message that is being written: what the editor holds, unless
/// the editor is empty, its contents cannot be read, or there are none.
pub fn draft_prompt(editor_is_empty: bool, contents: Option<Vec<PromptBlock>>) -> (r: Option<
    Vec<PromptBlock>,
>)
    ensures
        r == (match contents {
            Some(blocks) if !editor_is_empty && blocks@.len() > 0 => Some(blocks),
            _ => None,
        }),
{
    if editor_is_empty {
        return None;
    }
    match contents {
        Some(blocks) => if blocks.is_empty() {
            None
        } else {
            Some(blocks)
        },
        None => None,
    }
}

/// After the list was synchronised with the indicator, it has one item more than there are
/// entries while the agent generates, and as many as there are entries else. Only items of
/// the list are replaced, and synchronising it again changes nothing.
pub proof fn list_has_an_item_for_the_indicator(
    was_in_list: bool,
    is_generating: bool,
    entries_count: usize,
)
    ensures
        ({
            let before = entries_count + indicator_items(was_in_list);
            let after = match indicator_splice(was_in_list, is_generating, entries_count) {
                Some(splice) => before - splice.removed + splice.count,
                None => before,
            };
            after == entries_count + indicator_items(is_generating)
        }),
        indicator_splice(was_in_list, is_generating, entries_count) matches Some(splice)
            ==> splice.start + splice.removed <= entries_count + indicator_items(was_in_list),
        indicator_splice(is_generating, is_generating, entries_count) is None,
{
}

/// A large editor takes all the space, and a small one the lines of the settings. In a thread
/// without messages the editor takes all the space, with a margin below.
pub proof fn editors_take_the_space_they_need(is_expanded: bool, items: nat, lines: EditorLines)
    ensures
        expanded_mode(is_expanded, lines) is Full <==> is_expanded,
        empty_state_mode(items, lines) is Full <==> items == 0,
        expanded_mode(is_expanded, lines) matches EditorMode::AutoHeight { min_lines, max_lines }
            ==> min_lines == lines.min_lines && max_lines == Some(lines.max_lines),
        empty_state_mode(items, lines) matches EditorMode::AutoHeight { min_lines, max_lines }
            ==> min_lines == lines.min_lines && max_lines == Some(lines.max_lines),
        expanded_mode(is_expanded, lines) matches EditorMode::Full { excludes_overscroll_margin }
            ==> excludes_overscroll_margin,
        empty_state_mode(items, lines) matches EditorMode::Full { excludes_overscroll_margin }
            ==> !excludes_overscroll_margin,
{
}

/// The indicator comes behind the entries and takes up one item, or leaves from there.
pub proof fn the_indicator_stands_behind_the_entries(
    was_in_list: bool,
    is_generating: bool,
    entries_count: usize,
)
    ensures
        indicator_splice(was_in_list, is_generating, entries_count) is None <==> was_in_list
            == is_generating,
        indicator_splice(was_in_list, is_generating, entries_count) matches Some(splice) ==> {
            &&& splice.start == entries_count
            &&& is_generating ==> splice.removed == 0 && splice.count == 1
            &&& !is_generating ==> splice.removed == 1 && splice.count == 0
        },
        indicator_items(true) == 1,
        indicator_items(false) == 0,
{
}

} // verus!
