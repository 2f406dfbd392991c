//! Messages that wait until the agent is idle.

use crate::model::{AcpThread, Color, PromptBlock, ThreadStatus};
use crate::sending::Sending;
use crate::sending;
use crate::text;
use crate::thread_view::{AcpThreadViewEvent, QueuedMessage, ThreadView};
use vstd::prelude::*;
use vstd::string::*;

verus! {

/// A queued message that is sent now.
pub struct QueuedSend {
    pub message: QueuedMessage,
    pub sending: Sending,
    /// Whether the thread is canceled before the message is sent.
    pub cancels_thread: bool,
}

impl QueuedSend {
    /// What is reported of a queued message that is sent: an interaction.
    pub fn event(&self) -> (r: AcpThreadViewEvent)
        ensures
            r == AcpThreadViewEvent::Interacted,
    {
        AcpThreadViewEvent::Interacted
    }
}

/// What the user tried to put into a queued message.
pub enum InputAttempt {
    Text(String),
    /// What is in the clipboard, by the number under which it is kept.
    Paste(u64),
}

/// A queued message that moves into the main editor.
pub struct QueuedEdit {
    pub message: QueuedMessage,
    /// The separator before the message, where the editor holds something already.
    pub separator: Option<&'static str>,
    /// Where the cursor goes, in bytes.
    pub cursor_offset: Option<usize>,
    /// What is put in at the cursor after that.
    pub insertion: Option<InputAttempt>,
}

/// What a native thread was told about the queue, after it is told again: whether messages
/// wait. A thread that is not native is told nothing.
pub open spec fn told(native_flag: Option<bool>, queue: Seq<QueuedMessage>) -> Option<bool> {
    match native_flag {
        Some(_) => Some(queue.len() > 0),
        None => None,
    }
}

/// Whether the last text of a message is a question.
pub open spec fn is_question(content: Seq<PromptBlock>) -> bool
    decreases content.len(),
{
    if content.len() == 0 {
        false
    } else {
        match content.last() {
            PromptBlock::Text(text) => {
                let t = text::trimmed_end(text@);
                t.len() > 0 && t.last() == '?'
            },
            _ => is_question(content.drop_last()),
        }
    }
}

/// The view without the queued message at `index`.
pub open spec fn without_queued(before: ThreadView, after: ThreadView, index: int) -> bool {
    &&& after == (ThreadView { local_queued_messages: after.local_queued_messages, ..before })
    &&& after.local_queued_messages@ == before.local_queued_messages@.remove(index)
}

/// A row of the queue.
pub struct QueueEntry {
    pub index: usize,
    pub tooltip: &'static str,
    /// The colours of the circles in front of the message.
    pub circles: Vec<Color>,
    pub has_bottom_border: bool,
    pub buttons: QueueButtons,
}

/// The buttons of a row of the queue.
#[derive(Clone, Copy, PartialEq, Eq, Structural, Debug)]
pub enum QueueButtons {
    /// The message is being looked at: it can be edited or sent.
    Focused,
    /// The message can be removed, edited or sent.
    Unfocused {
        /// Whether the buttons show only while the mouse is over the row.
        only_on_hover: bool,
        /// Whether removing and editing have key bindings, and sending is outlined.
        is_next: bool,
        /// The key binding that sends the message.
        send_binding: Option<SendBinding>,
    },
}

/// The key bindings that send the next queued message.
#[derive(Clone, Copy, PartialEq, Eq, Structural, Debug)]
pub enum SendBinding {
    /// The one that sends what is in the editor.
    Chat,
    SendNextQueuedMessage,
}

/// The tooltip of a row of the queue.
pub open spec fn queue_tooltip(is_next: bool, question: bool) -> Seq<char> {
    if is_next && question {
        "Next in Queue (Question)"@
    } else if is_next {
        "Next in Queue"@
    } else if question {
        "Question in Queue"@
    } else {
        "In Queue"@
    }
}

/// The circles of a row of the queue.
pub open spec fn queue_circles(is_next: bool, question: bool) -> Seq<Color> {
    if question && is_next {
        seq![Color::Warning, Color::Accent]
    } else if question {
        seq![Color::Warning]
    } else if is_next {
        seq![Color::Accent]
    } else {
        seq![Color::Muted]
    }
}

/// The buttons of a row of the queue.
pub open spec fn queue_buttons(
    is_next: bool,
    is_focused: bool,
    is_editor_empty: bool,
    can_fast_track: bool,
) -> QueueButtons {
    if is_focused {
        QueueButtons::Focused
    } else {
        QueueButtons::Unfocused {
            only_on_hover: !is_next,
            is_next,
            send_binding: if is_next && is_editor_empty {
                Some(
                    if can_fast_track {
                        SendBinding::Chat
                    } else {
                        SendBinding::SendNextQueuedMessage
                    },
                )
            } else {
                None
            },
        }
    }
}

/// Whether the queued message at `index` is a question.
pub open spec fn queued_question(messages: Seq<QueuedMessage>, index: int) -> bool {
    index < messages.len() && is_question(messages[index].content@)
}

/// What a row of the queue shows.
pub open spec fn queue_entry_shows(
    entry: QueueEntry,
    view: ThreadView,
    index: int,
    editors_focused: Seq<bool>,
    is_editor_empty: bool,
) -> bool {
    let is_next = index == 0;
    let question = queued_question(view.local_queued_messages@, index);
    &&& entry.index == index
    &&& entry.tooltip@ == queue_tooltip(is_next, question)
    &&& entry.circles@ == queue_circles(is_next, question)
    &&& entry.has_bottom_border == (index < editors_focused.len() - 1)
    &&& entry.buttons == queue_buttons(
        is_next,
        editors_focused[index],
        is_editor_empty,
        view.can_fast_track_queue,
    )
}

impl ThreadView {
    /// Whether messages wait.
    pub fn has_queued_messages(&self) -> (r: bool)
        ensures
            r == (self.local_queued_messages@.len() > 0),
    {
        self.local_queued_messages.len() > 0
    }

    /// Whether the last text of a message is a question.
    pub fn content_is_question(content: &Vec<PromptBlock>) -> (r: bool)
        ensures
            r == is_question(content@),
    {
        let mut n: usize = content.len();
        assert(content@.take(n as int) == content@);
        while n > 0
            invariant
                n <= content@.len(),
                is_question(content@) == is_question(content@.take(n as int)),
            decreases n,
        {
            assert(content@.take(n as int).drop_last() == content@.take(n - 1));
            assert(content@.take(n as int).last() == content@[n - 1]);
            match &content[n - 1] {
                PromptBlock::Text(text) => {
                    let chars = text::characters(text.as_str());
                    let length = text::trimmed_end_length(chars.as_slice());
                    assert(text::trimmed_end(text@) == text@.take(length as int));
                    return length > 0 && chars[length - 1] == '?';
                },
                _ => {},
            }
            n = n - 1;
        }
        false
    }

    /// Puts a message at the end of the queue, and tells a native thread.
    pub fn add_to_queue(
        &mut self,
        content: Vec<PromptBlock>,
        tracked_buffers: Vec<u64>,
        native_flag: &mut Option<bool>,
    )
        ensures
            *final(native_flag) == told(*old(native_flag), final(self).local_queued_messages@),
            *final(self) == (ThreadView {
                local_queued_messages: final(self).local_queued_messages,
                ..*old(self)
            }),
            final(self).local_queued_messages@ == old(self).local_queued_messages@.push(
                QueuedMessage { content, tracked_buffers },
            ),
    {
        self.local_queued_messages.push(QueuedMessage { content, tracked_buffers });
        self.sync_queue_flag_to_native_thread(native_flag);
    }

    /// Takes the message at `index` out of the queue, and tells a native thread whether
    /// messages are left. Nothing changes where there is no such message.
    pub fn remove_from_queue(&mut self, index: usize, native_flag: &mut Option<bool>) -> (r: Option<
        QueuedMessage,
    >)
        ensures
            *final(native_flag) == (if index < old(self).local_queued_messages@.len() {
                told(*old(native_flag), final(self).local_queued_messages@)
            } else {
                *old(native_flag)
            }),
            r is Some <==> index < old(self).local_queued_messages@.len(),
            match r {
                Some(message) => message == old(self).local_queued_messages@[index as int]
                    && without_queued(*old(self), *final(self), index as int),
                None => *final(self) == *old(self),
            },
    {
        if index < self.local_queued_messages.len() {
            let removed = self.local_queued_messages.remove(index);
            self.sync_queue_flag_to_native_thread(native_flag);
            Some(removed)
        } else {
            None
        }
    }

    /// Takes all messages out of the queue, and tells a native thread.
    pub fn clear_queue(&mut self, native_flag: &mut Option<bool>)
        ensures
            *final(native_flag) == told(*old(native_flag), Seq::<QueuedMessage>::empty()),
            *final(self) == (ThreadView {
                local_queued_messages: final(self).local_queued_messages,
                ..*old(self)
            }),
            final(self).local_queued_messages@.len() == 0,
    {
        self.local_queued_messages.clear();
        self.sync_queue_flag_to_native_thread(native_flag);
    }

    /// The user clears the queue, by the button or by the key for it: all messages leave it,
    /// a native thread is told, and nothing can be sent from an empty editor then.
    pub fn handle_clear_queue(&mut self, native_flag: &mut Option<bool>)
        ensures
            *final(native_flag) == told(*old(native_flag), Seq::<QueuedMessage>::empty()),
            *final(self) == (ThreadView {
                local_queued_messages: final(self).local_queued_messages,
                can_fast_track_queue: false,
                ..*old(self)
            }),
            final(self).local_queued_messages@.len() == 0,
    {
        self.clear_queue(native_flag);
        self.can_fast_track_queue = false;
    }

    /// Tells a native thread whether messages wait. The flag is what the thread was told;
    /// there is none where the thread is not native.
    pub fn sync_queue_flag_to_native_thread(&self, native_flag: &mut Option<bool>)
        ensures
            *final(native_flag) == told(*old(native_flag), self.local_queued_messages@),
    {
        if native_flag.is_some() {
            *native_flag = Some(self.has_queued_messages());
        }
    }

    /// Takes in a message whose contents were resolved; an empty one is dropped. Then the
    /// queue can be sent from an empty editor.
    pub fn queue_resolved_message(
        &mut self,
        content: Vec<PromptBlock>,
        tracked_buffers: Vec<u64>,
        native_flag: &mut Option<bool>,
    ) -> (queued: bool)
        ensures
            queued == (content@.len() > 0),
            !queued ==> *final(self) == *old(self) && *final(native_flag) == *old(native_flag),
            queued ==> {
                &&& *final(native_flag) == told(
                    *old(native_flag),
                    final(self).local_queued_messages@,
                )
                &&& *final(self) == (ThreadView {
                    local_queued_messages: final(self).local_queued_messages,
                    can_fast_track_queue: true,
                    ..*old(self)
                })
                &&& final(self).local_queued_messages@ == old(self).local_queued_messages@.push(
                    QueuedMessage { content, tracked_buffers },
                )
            },
    {
        if content.len() == 0 {
            return false;
        }
        self.add_to_queue(content, tracked_buffers, native_flag);
        self.can_fast_track_queue = true;
        true
    }

    /// Takes the message at `index` out of the queue in order to send it. The thread is always
    /// canceled first, and the contents of the message are being loaded then. Where the
    /// message is sent at once and a generation is canceled with the thread, the end of that
    /// generation is not a reason to process the queue.
    pub fn send_queued_message_at_index(
        &mut self,
        index: usize,
        is_send_now: bool,
        thread: &AcpThread,
        native_flag: &mut Option<bool>,
    ) -> (r: Option<QueuedSend>)
        requires
            old(self).skip_queue_processing_count < usize::MAX,
        ensures
            r is Some <==> index < old(self).local_queued_messages@.len(),
            match r {
                Some(send) => {
                    &&& send.message == old(self).local_queued_messages@[index as int]
                    &&& send.sending == sending::sending_of(*old(self), *thread)
                    &&& send.cancels_thread
                    &&& *final(self) == (ThreadView {
                        local_queued_messages: final(self).local_queued_messages,
                        skip_queue_processing_count: (old(self).skip_queue_processing_count + (
                        if is_send_now && thread.status == ThreadStatus::Generating {
                            1int
                        } else {
                            0int
                        })) as usize,
                        is_loading_contents: true,
                        ..*old(self)
                    })
                    &&& final(self).local_queued_messages@
                        == old(self).local_queued_messages@.remove(index as int)
                    &&& *final(native_flag) == told(
                        *old(native_flag),
                        final(self).local_queued_messages@,
                    )
                },
                None => *final(self) == *old(self) && *final(native_flag) == *old(native_flag),
            },
    {
        match self.remove_from_queue(index, native_flag) {
            None => None,
            Some(message) => {
                if is_send_now && thread.status == ThreadStatus::Generating {
                    self.skip_queue_processing_count = self.skip_queue_processing_count + 1;
                }
                let follow = self.should_be_following;
                let is_first_message = self.send_content(thread);
                Some(
                    QueuedSend {
                        message,
                        sending: Sending { follow, is_first_message },
                        cancels_thread: true,
                    },
                )
            },
        }
    }

    /// Takes the message at `index` out of the queue in order to edit it in the main editor,
    /// behind what is there. The cursor keeps its place in the message, and what the user
    /// tried to put into it is put in there.
    pub fn move_queued_message_to_main_editor(
        &mut self,
        index: usize,
        attempt: Option<InputAttempt>,
        editor_is_empty: bool,
        editor_text_len: usize,
        cursor_offset: Option<usize>,
        native_flag: &mut Option<bool>,
    ) -> (r: Option<QueuedEdit>)
        requires
            cursor_offset matches Some(offset) ==> editor_text_len + 2 + offset <= usize::MAX,
        ensures
            r is Some <==> index < old(self).local_queued_messages@.len(),
            match r {
                Some(edit) => {
                    &&& edit.message == old(self).local_queued_messages@[index as int]
                    &&& match edit.separator {
                        Some(separator) => !editor_is_empty && separator@ == "\n\n"@,
                        None => editor_is_empty,
                    }
                    &&& edit.cursor_offset == (match cursor_offset {
                        Some(offset) => Some(
                            if editor_is_empty {
                                offset
                            } else {
                                (editor_text_len + 2 + offset) as usize
                            },
                        ),
                        None => None,
                    })
                    &&& edit.insertion == attempt
                    &&& without_queued(*old(self), *final(self), index as int)
                    &&& *final(native_flag) == told(
                        *old(native_flag),
                        final(self).local_queued_messages@,
                    )
                },
                None => *final(self) == *old(self) && *final(native_flag) == *old(native_flag),
            },
    {
        match self.remove_from_queue(index, native_flag) {
            None => None,
            Some(message) => {
                if editor_is_empty {
                    Some(
                        QueuedEdit { message, separator: None, cursor_offset, insertion: attempt },
                    )
                } else {
                    let adjusted = match cursor_offset {
                        Some(offset) => Some(editor_text_len + 2 + offset),
                        None => None,
                    };
                    Some(
                        QueuedEdit {
                            message,
                            separator: Some("\n\n"),
                            cursor_offset: adjusted,
                            insertion: attempt,
                        },
                    )
                }
            },
        }
    }

    /// The title of the queue.
    pub fn render_message_queue_summary(&self) -> (r: String)
        ensures
            r@ == (if self.local_queued_messages@.len() == 1 {
                "1 Queued Message"@
            } else {
                text::decimal(self.local_queued_messages@.len()) + " Queued Messages"@
            }),
    {
        let n = self.local_queued_messages.len();
        if n == 1 {
            "1 Queued Message".to_owned()
        } else {
            text::concat2(text::count(n).as_str(), " Queued Messages")
        }
    }

    /// The rows of the queue, one for each editor of a queued message. `editors_focused`
    /// says which of them has the focus.
    pub fn render_message_queue_entries(
        &self,
        editors_focused: &Vec<bool>,
        is_editor_empty: bool,
    ) -> (r: Vec<QueueEntry>)
        ensures
            r@.len() == editors_focused@.len(),
            forall|i: int|
                0 <= i < r@.len() ==> queue_entry_shows(
                    #[trigger] r@[i],
                    *self,
                    i,
                    editors_focused@,
                    is_editor_empty,
                ),
    {
        let queue_len = editors_focused.len();
        let can_fast_track = self.can_fast_track_queue && queue_len > 0;
        let mut entries: Vec<QueueEntry> = Vec::new();
        let mut i: usize = 0;
        while i < queue_len
            invariant
                i <= queue_len,
                queue_len == editors_focused@.len(),
                can_fast_track == (self.can_fast_track_queue && queue_len > 0),
                entries@.len() == i,
                forall|j: int|
                    0 <= j < i ==> queue_entry_shows(
                        #[trigger] entries@[j],
                        *self,
                        j,
                        editors_focused@,
                        is_editor_empty,
                    ),
            decreases queue_len - i,
        {
            let is_next = i == 0;
            let question = i < self.local_queued_messages.len() && Self::content_is_question(
                &self.local_queued_messages[i].content,
            );
            let tooltip = if is_next && question {
                "Next in Queue (Question)"
            } else if is_next {
                "Next in Queue"
            } else if question {
                "Question in Queue"
            } else {
                "In Queue"
            };
            let mut circles: Vec<Color> = Vec::new();
            if question {
                circles.push(Color::Warning);
            }
            if is_next {
                circles.push(Color::Accent);
            }
            if !question && !is_next {
                circles.push(Color::Muted);
            }
            assert(circles@ =~= queue_circles(is_next, question));
            let buttons = if editors_focused[i] {
                QueueButtons::Focused
            } else {
                let send_binding = if is_next && is_editor_empty {
                    if can_fast_track {
                        Some(SendBinding::Chat)
                    } else {
                        Some(SendBinding::SendNextQueuedMessage)
                    }
                } else {
                    None
                };
                QueueButtons::Unfocused { only_on_hover: !is_next, is_next, send_binding }
            };
            entries.push(
                QueueEntry {
                    index: i,
                    tooltip,
                    circles,
                    has_bottom_border: i < queue_len - 1,
                    buttons,
                },
            );
            i = i + 1;
        }
        entries
    }
}

/// Messages leave the queue in the order in which they came: after one more is added,
/// taking out the first gives the message that was first before, and the new one is last.
pub proof fn messages_leave_in_order(queue: Seq<QueuedMessage>, message: QueuedMessage)
    ensures
        ({
            let after = queue.push(message);
            &&& after[0] == (if queue.len() > 0 {
                queue[0]
            } else {
                message
            })
            &&& queue.len() > 0 ==> after.remove(0) == queue.remove(0).push(message)
            &&& after.remove(queue.len() as int) == queue
        }),
{
    let after = queue.push(message);
    if queue.len() > 0 {
        assert(after.remove(0) =~= queue.remove(0).push(message));
    }
    assert(after.remove(queue.len() as int) =~= queue);
}

/// A native thread is told whether messages wait; another thread is told nothing.
pub proof fn native_threads_know_of_the_queue(
    native_flag: Option<bool>,
    queue: Seq<QueuedMessage>,
)
    ensures
        native_flag is None ==> told(native_flag, queue) is None,
        native_flag is Some ==> (told(native_flag, queue) == Some(true) <==> queue.len() != 0),
        native_flag is Some ==> (told(native_flag, queue) == Some(false) <==> queue.len() == 0),
{
}

/// The last text of a message decides whether it is a question: whether it ends in a question
/// mark, apart from white space. What stands before that text, and blocks that are no texts, do
/// not matter.
pub proof fn the_last_text_decides_about_questions(
    before: Seq<PromptBlock>,
    text: String,
    after: Seq<PromptBlock>,
    k: int,
)
    requires
        forall|i: int| 0 <= i < after.len() ==> !((#[trigger] after[i]) is Text),
        0 <= k <= text@.len(),
        forall|i: int| k <= i < text@.len() ==> text::white_space(#[trigger] text@[i]),
        k > 0 ==> !text::white_space(text@[k - 1]),
    ensures
        is_question(before + seq![PromptBlock::Text(text)] + after) <==> k > 0 && text@[k - 1]
            == '?',
    decreases after.len(),
{
    let content = before + seq![PromptBlock::Text(text)] + after;
    if after.len() > 0 {
        let rest = after.drop_last();
        assert(content.drop_last() =~= before + seq![PromptBlock::Text(text)] + rest);
        assert(content.last() == after[after.len() - 1]);
        the_last_text_decides_about_questions(before, text, rest, k);
    } else {
        assert(content.last() == PromptBlock::Text(text));
        lemma_trimmed_end_at(text@, k);
        let t = text::trimmed_end(text@);
        if k > 0 {
            assert(t.last() == text@[k - 1]);
        }
    }
}

proof fn lemma_trimmed_end_at(s: Seq<char>, k: int)
    requires
        0 <= k <= s.len(),
        forall|i: int| k <= i < s.len() ==> text::white_space(#[trigger] s[i]),
        k > 0 ==> !text::white_space(s[k - 1]),
    ensures
        text::trimmed_end(s) == s.take(k),
    decreases s.len(),
{
    if k < s.len() {
        assert(text::white_space(s[s.len() - 1]));
        assert forall|i: int| k <= i < s.drop_last().len() implies text::white_space(
            #[trigger] s.drop_last()[i],
        ) by {
            assert(s.drop_last()[i] == s[i]);
        }
        lemma_trimmed_end_at(s.drop_last(), k);
        assert(s.drop_last().take(k) =~= s.take(k));
    } else {
        assert(s.take(k) =~= s);
    }
}

/// A message without a text is no question.
pub proof fn without_a_text_there_is_no_question(content: Seq<PromptBlock>)
    requires
        forall|i: int| 0 <= i < content.len() ==> !((#[trigger] content[i]) is Text),
    ensures
        !is_question(content),
    decreases content.len(),
{
    if content.len() > 0 {
        assert(!(content[content.len() - 1] is Text));
        without_a_text_there_is_no_question(content.drop_last());
    }
}

/// A message that leaves the queue leaves the others in their order, and nothing else of the
/// view changes.
pub proof fn leaving_keeps_the_others(before: ThreadView, after: ThreadView, index: int, i: int)
    requires
        0 <= index < before.local_queued_messages@.len(),
        without_queued(before, after, index),
    ensures
        after.local_queued_messages@.len() == before.local_queued_messages@.len() - 1,
        0 <= i < index ==> after.local_queued_messages@[i] == before.local_queued_messages@[i],
        index <= i < after.local_queued_messages@.len() ==> after.local_queued_messages@[i]
            == before.local_queued_messages@[i + 1],
        before == (ThreadView { local_queued_messages: before.local_queued_messages, ..after }),
{
}

/// A row of the queue shows its place: the first message is the next, and questions are marked.
/// Each row has a circle for being next and one for being a question, and a plain one where it
/// is neither.
pub proof fn rows_of_the_queue_show_their_place(
    entry: QueueEntry,
    view: ThreadView,
    index: int,
    editors_focused: Seq<bool>,
    is_editor_empty: bool,
)
    requires
        0 <= index < editors_focused.len(),
        queue_entry_shows(entry, view, index, editors_focused, is_editor_empty),
    ensures
        entry.index == index,
        entry.has_bottom_border <==> index + 1 < editors_focused.len(),
        entry.circles@.contains(Color::Accent) <==> index == 0,
        entry.circles@.contains(Color::Warning) <==> index < view.local_queued_messages@.len()
            && is_question(view.local_queued_messages@[index].content@),
        entry.circles@.contains(Color::Muted) <==> !entry.circles@.contains(Color::Accent)
            && !entry.circles@.contains(Color::Warning),
        entry.circles@.len() <= 2,
        entry.circles@.len() == 2 ==> entry.circles@[0] == Color::Warning,
        entry.tooltip@ == "Next in Queue (Question)"@ <==> entry.circles@.contains(Color::Accent)
            && entry.circles@.contains(Color::Warning),
        entry.tooltip@ == "Next in Queue"@ <==> entry.circles@.contains(Color::Accent)
            && !entry.circles@.contains(Color::Warning),
        entry.tooltip@ == "Question in Queue"@ <==> !entry.circles@.contains(Color::Accent)
            && entry.circles@.contains(Color::Warning),
        entry.tooltip@ == "In Queue"@ <==> entry.circles@.contains(Color::Muted),
        entry.buttons is Focused <==> editors_focused[index],
        entry.buttons matches QueueButtons::Unfocused { only_on_hover, is_next, send_binding } ==> {
            &&& is_next <==> index == 0
            &&& only_on_hover <==> index > 0
            &&& send_binding is Some <==> index == 0 && is_editor_empty
            &&& send_binding == Some(SendBinding::Chat) ==> view.can_fast_track_queue
            &&& send_binding == Some(SendBinding::SendNextQueuedMessage)
                ==> !view.can_fast_track_queue
        },
{
    reveal_strlit("Next in Queue (Question)");
    reveal_strlit("Next in Queue");
    reveal_strlit("Question in Queue");
    reveal_strlit("In Queue");
    assert("Next in Queue (Question)"@.len() == 24);
    assert("Next in Queue"@.len() == 13);
    assert("Question in Queue"@.len() == 17);
    assert("In Queue"@.len() == 8);
    let question = queued_question(view.local_queued_messages@, index);
    let circles = entry.circles@;
    if question && index == 0 {
        assert(circles[0] == Color::Warning && circles[1] == Color::Accent);
    } else {
        assert(circles[0] == circles.last());
    }
}

} // verus!
