//! The responses of the agent: what belongs to one, what is copied of it, and what is shown
//! while the agent generates one.

use crate::model::{
    AcpThread, AgentThreadEntry, AssistantMessageChunk, EntryContent, IconName, SpinnerVariant,
    ThreadStatus, ToolKind,
};
use crate::model;
use crate::text;
use crate::thread_view::ThreadView;
use crate::turn;
use vstd::prelude::*;
use vstd::string::*;

verus! {

/// The first entry of the response that the entry at `index` belongs to: the one behind the
/// message of the user before it.
pub open spec fn response_start(entries: Seq<AgentThreadEntry>, index: int) -> int
    decreases index,
{
    if index <= 0 {
        0
    } else if model::is_user_message(entries[index - 1]) {
        index
    } else {
        response_start(entries, index - 1)
    }
}

/// The end of the response that the entry at `index` belongs to: the next message of the user,
/// or the end of the thread.
pub open spec fn response_end(entries: Seq<AgentThreadEntry>, index: int) -> int
    decreases entries.len() - index,
{
    if index + 1 >= entries.len() {
        entries.len() as int
    } else if model::is_user_message(entries[index + 1]) {
        index + 1
    } else {
        response_end(entries, index + 1)
    }
}

/// The texts of the messages among chunks. Thoughts and blank messages are left out.
pub open spec fn chunk_texts(chunks: Seq<AssistantMessageChunk>) -> Seq<Seq<char>>
    decreases chunks.len(),
{
    if chunks.len() == 0 {
        seq![]
    } else {
        let before = chunk_texts(chunks.drop_last());
        match chunks.last() {
            AssistantMessageChunk::Message { block } => if text::blank(block.rendered@) {
                before
            } else {
                before.push(block.rendered@)
            },
            AssistantMessageChunk::Thought { .. } => before,
        }
    }
}

/// The texts of the messages of the agent among entries.
pub open spec fn entry_texts(entries: Seq<AgentThreadEntry>) -> Seq<Seq<char>>
    decreases entries.len(),
{
    if entries.len() == 0 {
        seq![]
    } else {
        let before = entry_texts(entries.drop_last());
        match entries.last().content {
            EntryContent::AssistantMessage(message) => {
                let message_text = text::joined(chunk_texts(message.chunks@), "\n\n"@);
                if message_text.len() == 0 {
                    before
                } else {
                    before.push(message_text)
                }
            },
            _ => before,
        }
    }
}

/// The text of the response that the entry at `index` belongs to. A message of the user has
/// none.
pub open spec fn response_text(entries: Seq<AgentThreadEntry>, index: int) -> Option<Seq<char>> {
    if index >= entries.len() || model::is_user_message(entries[index]) {
        None
    } else {
        let response = entries.subrange(
            response_start(entries, index),
            response_end(entries, index),
        );
        let all = text::joined(entry_texts(response), "\n\n"@);
        if all.len() == 0 {
            None
        } else {
            Some(all)
        }
    }
}

proof fn lemma_response_bounds(entries: Seq<AgentThreadEntry>, index: int)
    requires
        0 <= index < entries.len(),
    ensures
        0 <= response_start(entries, index) <= index,
        index < response_end(entries, index) <= entries.len(),
    decreases entries.len() - index,
{
    lemma_start_bounds(entries, index);
    if index + 1 < entries.len() && !model::is_user_message(entries[index + 1]) {
        lemma_response_bounds(entries, index + 1);
    }
}

proof fn lemma_start_bounds(entries: Seq<AgentThreadEntry>, index: int)
    requires
        0 <= index <= entries.len(),
    ensures
        0 <= response_start(entries, index) <= index,
        forall|i: int|
            response_start(entries, index) <= i < index ==> !model::is_user_message(
                #[trigger] entries[i],
            ),
        response_start(entries, index) > 0 ==> model::is_user_message(
            entries[response_start(entries, index) - 1],
        ),
    decreases index,
{
    if index > 0 && !model::is_user_message(entries[index - 1]) {
        lemma_start_bounds(entries, index - 1);
    }
}

fn find_response_start(entries: &Vec<AgentThreadEntry>, index: usize) -> (r: usize)
    requires
        index <= entries@.len(),
    ensures
        r == response_start(entries@, index as int),
        r <= index,
{
    let mut i: usize = index;
    while i > 0
        invariant
            i <= index <= entries@.len(),
            response_start(entries@, i as int) == response_start(entries@, index as int),
        decreases i,
    {
        if entries[i - 1].is_user_message() {
            return i;
        }
        i = i - 1;
    }
    0
}

fn find_response_end(entries: &Vec<AgentThreadEntry>, index: usize) -> (r: usize)
    requires
        index < entries@.len(),
    ensures
        r == response_end(entries@, index as int),
{
    let total = entries.len();
    let mut i: usize = index;
    while i < total - 1
        invariant
            total == entries@.len(),
            index <= i < entries@.len(),
            response_end(entries@, i as int) == response_end(entries@, index as int),
        decreases entries@.len() - i,
    {
        if entries[i + 1].is_user_message() {
            return i + 1;
        }
        i = i + 1;
    }
    entries.len()
}

fn message_text(chunks: &Vec<AssistantMessageChunk>) -> (r: String)
    ensures
        r@ == text::joined(chunk_texts(chunks@), "\n\n"@),
{
    let mut texts: Vec<String> = Vec::new();
    assert(text::views(texts@) =~= seq![]);
    let mut i: usize = 0;
    while i < chunks.len()
        invariant
            i <= chunks@.len(),
            text::views(texts@) == chunk_texts(chunks@.take(i as int)),
        decreases chunks@.len() - i,
    {
        assert(chunks@.take(i + 1).drop_last() == chunks@.take(i as int));
        let ghost before = texts@;
        if let AssistantMessageChunk::Message { block } = &chunks[i] {
            if !text::is_blank(block.rendered.as_str()) {
                texts.push(block.rendered.clone());
                assert(text::views(texts@) =~= text::views(before).push(block.rendered@));
            }
        }
        i = i + 1;
    }
    assert(chunks@.take(i as int) == chunks@);
    text::join(&texts, "\n\n")
}

/// The text of the response that the entry at `entry_index` belongs to, as it is copied.
pub fn get_agent_message_content(entries: &Vec<AgentThreadEntry>, entry_index: usize) -> (r: Option<
    String,
>)
    ensures
        text::optional_view(r) == response_text(entries@, entry_index as int),
{
    if entry_index >= entries.len() {
        return None;
    }
    if entries[entry_index].is_user_message() {
        return None;
    }
    proof {
        lemma_response_bounds(entries@, entry_index as int);
    }
    let start = find_response_start(entries, entry_index);
    let end = find_response_end(entries, entry_index);
    let ghost response = entries@.subrange(start as int, end as int);
    let mut parts: Vec<String> = Vec::new();
    assert(text::views(parts@) =~= seq![]);
    assert(response.take(0) =~= seq![]);
    let mut i: usize = start;
    while i < end
        invariant
            start <= i <= end <= entries@.len(),
            response == entries@.subrange(start as int, end as int),
            text::views(parts@) == entry_texts(response.take(i - start)),
        decreases end - i,
    {
        assert(response.take(i + 1 - start).drop_last() == response.take(i - start));
        assert(response.take(i + 1 - start).last() == entries@[i as int]);
        let ghost before = parts@;
        if let EntryContent::AssistantMessage(message) = &entries[i].content {
            let part = message_text(&message.chunks);
            if !part.as_str().is_empty() {
                parts.push(part);
                assert(text::views(parts@) =~= text::views(before).push(part@));
            }
        }
        i = i + 1;
    }
    assert(response.take(end - start) == response);
    let all = text::join(&parts, "\n\n");
    if all.as_str().is_empty() {
        None
    } else {
        Some(all)
    }
}

proof fn lemma_same_response(entries: Seq<AgentThreadEntry>, first: int, second: int)
    requires
        0 <= first <= second < entries.len(),
        forall|i: int| first <= i <= second ==> !model::is_user_message(#[trigger] entries[i]),
    ensures
        response_start(entries, first) == response_start(entries, second),
        response_end(entries, first) == response_end(entries, second),
    decreases second - first,
{
    if first < second {
        lemma_same_response(entries, first, second - 1);
        assert(!model::is_user_message(entries[second - 1]));
        assert(!model::is_user_message(entries[second]));
    }
}

/// Whichever entry of a response is asked for, the same text is copied.
pub proof fn every_entry_of_a_response_copies_the_same(
    entries: Seq<AgentThreadEntry>,
    first: int,
    second: int,
)
    requires
        0 <= first <= second < entries.len(),
        forall|i: int| first <= i <= second ==> !model::is_user_message(#[trigger] entries[i]),
    ensures
        response_text(entries, first) == response_text(entries, second),
{
    lemma_same_response(entries, first, second);
    assert(!model::is_user_message(entries[first]));
    assert(!model::is_user_message(entries[second]));
}

/// Whether the entry is a call that is under way.
pub open spec fn is_running_call(entry: AgentThreadEntry) -> bool {
    entry.content matches EntryContent::ToolCall(call) && call.status.under_way()
}

/// Whether the entry is a call that runs a command.
pub open spec fn is_command(entry: AgentThreadEntry) -> bool {
    entry.content matches EntryContent::ToolCall(call) && call.kind == ToolKind::Execute
}

/// Whether the agent only waits for commands: behind the last message of the user there are
/// calls under way, and all of them run commands.
pub open spec fn blocked_on_commands(thread: AcpThread) -> bool {
    let entries = thread.entries@;
    let start = response_start(entries, entries.len() as int);
    &&& thread.status == ThreadStatus::Generating
    &&& exists|i: int| start <= i < entries.len() && is_running_call(#[trigger] entries[i])
    &&& forall|i: int|
        start <= i < entries.len() && is_running_call(#[trigger] entries[i]) ==> is_command(
            entries[i],
        )
}

/// Whether the agent only waits for commands.
pub fn is_blocked_on_terminal_command(thread: &AcpThread) -> (r: bool)
    ensures
        r == blocked_on_commands(*thread),
{
    if thread.status != ThreadStatus::Generating {
        return false;
    }
    let entries = &thread.entries;
    proof {
        lemma_start_bounds(entries@, entries@.len() as int);
    }
    let ghost start = response_start(entries@, entries@.len() as int);
    let mut has_running_terminal_call = false;
    let mut i: usize = entries.len();
    while i > 0
        invariant_except_break
            start <= i,
        invariant
            entries == &thread.entries,
            start == response_start(entries@, entries@.len() as int),
            0 <= start,
            i <= entries@.len(),
            forall|j: int|
                start <= j < entries@.len() ==> !model::is_user_message(#[trigger] entries@[j]),
            start > 0 ==> model::is_user_message(entries@[start - 1]),
            has_running_terminal_call == (exists|j: int|
                i <= j < entries@.len() && is_running_call(#[trigger] entries@[j])),
            forall|j: int|
                i <= j < entries@.len() && is_running_call(#[trigger] entries@[j]) ==> is_command(
                    entries@[j],
                ),
        ensures
            i == start,
        decreases i,
    {
        let entry = &entries[i - 1];
        if entry.is_user_message() {
            assert(i == start);
            break;
        }
        assert(start <= i - 1);
        if let EntryContent::ToolCall(call) = &entry.content {
            if call.status.is_under_way() {
                assert(is_running_call(entries@[i - 1]));
                if call.kind == ToolKind::Execute {
                    has_running_terminal_call = true;
                } else {
                    return false;
                }
            }
        }
        i = i - 1;
        assert(has_running_terminal_call == (exists|j: int|
            i <= j < entries@.len() && is_running_call(#[trigger] entries@[j]))) by {
            if exists|j: int| i <= j < entries@.len() && is_running_call(#[trigger] entries@[j]) {
                let j = choose|j: int|
                    i <= j < entries@.len() && is_running_call(#[trigger] entries@[j]);
                assert(j == i || i + 1 <= j);
            }
        }
    }
    has_running_terminal_call
}

/// What the indicator below a thread depends on besides the thread.
pub struct TurnStats<'a> {
    pub show_turn_stats: bool,
    /// The times are in nanoseconds.
    pub now: u64,
    pub stopwatch_threshold: u64,
    pub token_threshold: u64,
    /// The time since the turn started, in words.
    pub elapsed_text: &'a str,
    /// The tokens of the turn, in words.
    pub tokens_text: &'a str,
    pub has_in_progress_tool_calls: bool,
}

/// The indicator below a thread while the agent generates.
pub struct GeneratingIndicator {
    pub spinner: Option<SpinnerVariant>,
    pub label: Option<&'static str>,
    pub elapsed: Option<String>,
    pub tokens: Option<String>,
    pub arrow_icon: IconName,
}

/// Whether the turn has taken long enough for its time to be shown.
pub open spec fn shows_elapsed(view: ThreadView, stats: TurnStats) -> bool {
    stats.show_turn_stats && (view.turn_fields.turn_started_at matches Some(start)
        && turn::elapsed(start, stats.now) > stats.stopwatch_threshold)
}

/// What the indicator below a thread shows.
pub open spec fn indicator_shows(
    indicator: GeneratingIndicator,
    view: ThreadView,
    thread: AcpThread,
    confirmation: bool,
    stats: TurnStats,
) -> bool {
    &&& indicator.spinner == (if confirmation {
        Some(SpinnerVariant::Sand)
    } else if blocked_on_commands(thread) {
        None
    } else {
        Some(SpinnerVariant::Dots)
    })
    &&& text::reference_view(indicator.label) == (if confirmation {
        Some("Awaiting Confirmation"@)
    } else {
        None
    })
    &&& text::optional_view(indicator.elapsed) == (if shows_elapsed(view, stats) {
        Some(stats.elapsed_text@)
    } else {
        None
    })
    &&& text::optional_view(indicator.tokens) == (if shows_elapsed(view, stats) && (
    view.turn_fields.turn_tokens matches Some(tokens) && tokens > stats.token_threshold) {
        Some(stats.tokens_text@ + " tokens"@)
    } else {
        None
    })
    &&& indicator.arrow_icon == (if confirmation || stats.has_in_progress_tool_calls {
        IconName::ArrowUp
    } else {
        IconName::ArrowDown
    })
}

/// Where the list of entries scrolls to.
#[derive(Clone, Copy, PartialEq, Eq, Structural, Debug)]
pub enum ScrollTarget {
    Nothing,
    Entry(usize),
    End,
}

/// The last message of the user before `index`.
pub open spec fn user_message_before(entries: Seq<AgentThreadEntry>, index: int) -> Option<usize>
    decreases index,
{
    if index <= 0 {
        None
    } else if index - 1 < entries.len() && model::is_user_message(entries[index - 1]) {
        Some((index - 1) as usize)
    } else {
        user_message_before(entries, index - 1)
    }
}

/// The first message of the user from `index` on.
pub open spec fn user_message_from(entries: Seq<AgentThreadEntry>, index: int) -> Option<usize>
    decreases entries.len() - index,
{
    if index >= entries.len() {
        None
    } else if model::is_user_message(entries[index]) {
        Some(index as usize)
    } else {
        user_message_from(entries, index + 1)
    }
}

fn find_user_message_before(entries: &Vec<AgentThreadEntry>, index: usize) -> (r: Option<usize>)
    ensures
        r == user_message_before(entries@, index as int),
{
    let mut i: usize = index;
    while i > 0
        invariant
            i <= index,
            user_message_before(entries@, i as int) == user_message_before(
                entries@,
                index as int,
            ),
        decreases i,
    {
        if i - 1 < entries.len() && entries[i - 1].is_user_message() {
            return Some(i - 1);
        }
        i = i - 1;
    }
    None
}

/// Where to scroll to see the most recent prompt: its message, or the end where there is none.
/// An empty list is left alone.
pub fn scroll_to_most_recent_user_prompt(entries: &Vec<AgentThreadEntry>) -> (r: ScrollTarget)
    ensures
        r == (if entries@.len() == 0 {
            ScrollTarget::Nothing
        } else {
            match user_message_before(entries@, entries@.len() as int) {
                Some(index) => ScrollTarget::Entry(index),
                None => ScrollTarget::End,
            }
        }),
{
    if entries.len() == 0 {
        return ScrollTarget::Nothing;
    }
    match find_user_message_before(entries, entries.len()) {
        Some(index) => ScrollTarget::Entry(index),
        None => ScrollTarget::End,
    }
}

/// Where to scroll to see the message of the user before the entry on top.
pub fn scroll_output_to_previous_message(
    entries: &Vec<AgentThreadEntry>,
    current_ix: usize,
) -> (r: ScrollTarget)
    ensures
        r == (match user_message_before(entries@, current_ix as int) {
            Some(index) => ScrollTarget::Entry(index),
            None => ScrollTarget::Nothing,
        }),
{
    match find_user_message_before(entries, current_ix) {
        Some(index) => ScrollTarget::Entry(index),
        None => ScrollTarget::Nothing,
    }
}

/// Where to scroll to see the message of the user behind the entry on top.
pub fn scroll_output_to_next_message(entries: &Vec<AgentThreadEntry>, current_ix: usize) -> (r:
    ScrollTarget)
    requires
        current_ix < usize::MAX,
    ensures
        r == (match user_message_from(entries@, current_ix + 1) {
            Some(index) => ScrollTarget::Entry(index),
            None => ScrollTarget::Nothing,
        }),
{
    let mut i: usize = current_ix + 1;
    while i < entries.len()
        invariant
            user_message_from(entries@, i as int) == user_message_from(entries@, current_ix + 1),
        decreases entries@.len() - i,
    {
        if entries[i].is_user_message() {
            return ScrollTarget::Entry(i);
        }
        i = i + 1;
    }
    ScrollTarget::Nothing
}

proof fn lemma_user_message_before(entries: Seq<AgentThreadEntry>, index: int, i: int)
    requires
        0 <= i < index,
        i < entries.len(),
        model::is_user_message(entries[i]),
        entries.len() <= usize::MAX,
    ensures
        user_message_before(entries, index) matches Some(found) && i <= found < index && found
            < entries.len() && model::is_user_message(entries[found as int]),
    decreases index,
{
    if !(index - 1 < entries.len() && model::is_user_message(entries[index - 1])) {
        lemma_user_message_before(entries, index - 1, i);
    }
}

/// Scrolling to the previous message stops at the nearest one: no message of the user lies
/// between it and the entry on top.
pub proof fn the_previous_message_is_the_nearest(
    entries: Seq<AgentThreadEntry>,
    index: int,
    i: int,
)
    requires
        0 <= i < index <= entries.len() <= usize::MAX,
        model::is_user_message(entries[i]),
    ensures
        user_message_before(entries, index) matches Some(found) && i <= found < index
            && model::is_user_message(entries[found as int]),
{
    lemma_user_message_before(entries, index, i);
}

/// The menu of a message of the agent.
pub struct MessageContextMenu {
    pub id: String,
    /// The link that can be copied.
    pub link: Option<String>,
    pub can_copy_selection: bool,
    pub scroll_label: &'static str,
}

/// The block of a chunk.
pub open spec fn block_of(chunk: AssistantMessageChunk) -> model::MessageBlock {
    match chunk {
        AssistantMessageChunk::Message { block } => block,
        AssistantMessageChunk::Thought { block } => block,
    }
}

/// Whether text in the chunk is selected.
pub open spec fn is_selected(chunk: AssistantMessageChunk) -> bool {
    block_of(chunk).markdown is Some && block_of(chunk).has_selection
}

/// The first link under the menu among chunks.
pub open spec fn first_link(chunks: Seq<AssistantMessageChunk>) -> Option<Seq<char>>
    decreases chunks.len(),
{
    if chunks.len() == 0 {
        None
    } else {
        match first_link(chunks.drop_last()) {
            Some(link) => Some(link),
            None => if block_of(chunks.last()).markdown is Some {
                text::optional_view(block_of(chunks.last()).context_menu_link)
            } else {
                None
            },
        }
    }
}

/// The chunks of the message of the agent at `index`.
pub open spec fn chunks_at(entries: Seq<AgentThreadEntry>, index: int) -> Seq<
    AssistantMessageChunk,
> {
    if 0 <= index < entries.len() {
        match entries[index].content {
            EntryContent::AssistantMessage(message) => message.chunks@,
            _ => seq![],
        }
    } else {
        seq![]
    }
}

fn scan_chunks(chunks: &Vec<AssistantMessageChunk>) -> (r: (bool, Option<String>))
    ensures
        r.0 == (exists|i: int| 0 <= i < chunks@.len() && is_selected(#[trigger] chunks@[i])),
        text::optional_view(r.1) == first_link(chunks@),
{
    let mut has_selection = false;
    let mut link: Option<String> = None;
    let mut i: usize = 0;
    while i < chunks.len()
        invariant
            i <= chunks@.len(),
            has_selection == (exists|j: int|
                0 <= j < i && is_selected(#[trigger] chunks@[j])),
            text::optional_view(link) == first_link(chunks@.take(i as int)),
        decreases chunks@.len() - i,
    {
        assert(chunks@.take(i + 1).drop_last() == chunks@.take(i as int));
        let block = match &chunks[i] {
            AssistantMessageChunk::Message { block } => block,
            AssistantMessageChunk::Thought { block } => block,
        };
        assert(*block == block_of(chunks@[i as int]));
        let ghost before = has_selection;
        if block.markdown.is_some() {
            if block.has_selection {
                assert(is_selected(chunks@[i as int]));
                has_selection = true;
            }
            if link.is_none() {
                link = text::copy_option(&block.context_menu_link);
            }
        }
        i = i + 1;
        assert(has_selection == (exists|j: int| 0 <= j < i && is_selected(#[trigger] chunks@[j])))
            by {
            if exists|j: int| 0 <= j < i && is_selected(#[trigger] chunks@[j]) {
                let j = choose|j: int| 0 <= j < i && is_selected(#[trigger] chunks@[j]);
                assert(j == i - 1 || j < i - 1);
            }
        }
    }
    assert(chunks@.take(i as int) == chunks@);
    (has_selection, link)
}

/// The menu of the message of the agent at `entry_ix`.
pub fn render_message_context_menu(
    entries: &Vec<AgentThreadEntry>,
    entry_ix: usize,
    is_at_top: bool,
) -> (r: MessageContextMenu)
    ensures
        r.id@ == "agent_context_menu-"@ + text::decimal(entry_ix as nat),
        text::optional_view(r.link) == first_link(chunks_at(entries@, entry_ix as int)),
        r.can_copy_selection == (exists|i: int|
            0 <= i < chunks_at(entries@, entry_ix as int).len() && is_selected(
                #[trigger] chunks_at(entries@, entry_ix as int)[i],
            )),
        r.scroll_label@ == (if is_at_top {
            "Scroll to Bottom"@
        } else {
            "Scroll to Top"@
        }),
{
    let mut scanned: (bool, Option<String>) = (false, None);
    if entry_ix < entries.len() {
        if let EntryContent::AssistantMessage(message) = &entries[entry_ix].content {
            scanned = scan_chunks(&message.chunks);
        }
    }
    MessageContextMenu {
        id: text::with_count("agent_context_menu-", entry_ix),
        link: scanned.1,
        can_copy_selection: scanned.0,
        scroll_label: if is_at_top {
            "Scroll to Bottom"
        } else {
            "Scroll to Top"
        },
    }
}

impl ThreadView {
    /// The indicator below a thread while the agent generates.
    pub fn render_generating(&self, confirmation: bool, thread: &AcpThread, stats: &TurnStats) -> (r:
        GeneratingIndicator)
        ensures
            indicator_shows(r, *self, *thread, confirmation, *stats),
    {
        let is_long = stats.show_turn_stats && match self.turn_fields.turn_started_at {
            Some(start) => stats.now.saturating_sub(start) > stats.stopwatch_threshold,
            None => false,
        };
        let has_many_tokens = match self.turn_fields.turn_tokens {
            Some(tokens) => tokens > stats.token_threshold,
            None => false,
        };
        let elapsed = if is_long {
            Some(stats.elapsed_text.to_owned())
        } else {
            None
        };
        let tokens = if is_long && has_many_tokens {
            Some(text::concat2(stats.tokens_text, " tokens"))
        } else {
            None
        };
        let label: Option<&'static str> = if confirmation {
            Some("Awaiting Confirmation")
        } else {
            None
        };
        let spinner = if confirmation {
            Some(SpinnerVariant::Sand)
        } else if is_blocked_on_terminal_command(thread) {
            None
        } else {
            Some(SpinnerVariant::Dots)
        };
        let arrow_icon = if confirmation || stats.has_in_progress_tool_calls {
            IconName::ArrowUp
        } else {
            IconName::ArrowDown
        };
        GeneratingIndicator { spinner, label, elapsed, tokens, arrow_icon }
    }
}

/// A response lies between two messages of the user: no message of the user is in it, and one
/// stands at either end, unless the thread starts or ends there.
pub proof fn a_response_lies_between_two_messages(entries: Seq<AgentThreadEntry>, index: int)
    requires
        0 <= index < entries.len(),
        !(entries[index].content is UserMessage),
    ensures
        ({
            let start = response_start(entries, index);
            let end = response_end(entries, index);
            &&& 0 <= start <= index < end <= entries.len()
            &&& forall|i: int| start <= i < end ==> !((#[trigger] entries[i]).content is UserMessage)
            &&& start > 0 ==> entries[start - 1].content is UserMessage
            &&& end < entries.len() ==> entries[end].content is UserMessage
        }),
    decreases entries.len() - index,
{
    lemma_start_bounds(entries, index);
    let start = response_start(entries, index);
    if index + 1 < entries.len() && !(entries[index + 1].content is UserMessage) {
        a_response_lies_between_two_messages(entries, index + 1);
        assert(response_start(entries, index + 1) == start);
    }
    let end = response_end(entries, index);
    assert forall|i: int| start <= i < end implies !((
    #[trigger] entries[i]).content is UserMessage) by {
        if i < index {
            assert(!model::is_user_message(entries[i]));
        }
    }
}

/// The text of chunks is taken from them one by one: the messages that are not blank, and no
/// thoughts.
pub proof fn chunks_give_their_messages(
    first: Seq<AssistantMessageChunk>,
    second: Seq<AssistantMessageChunk>,
    block: model::MessageBlock,
)
    ensures
        chunk_texts(first + second) == chunk_texts(first) + chunk_texts(second),
        chunk_texts(seq![AssistantMessageChunk::Thought { block }]).len() == 0,
        text::trimmed(block.rendered@).len() > 0 ==> chunk_texts(
            seq![AssistantMessageChunk::Message { block }],
        ) == seq![block.rendered@],
        text::trimmed(block.rendered@).len() == 0 ==> chunk_texts(
            seq![AssistantMessageChunk::Message { block }],
        ).len() == 0,
    decreases second.len(),
{
    reveal_with_fuel(chunk_texts, 3);
    text::blank_text_trims_to_nothing(block.rendered@);
    assert(seq![AssistantMessageChunk::Thought { block }].drop_last() =~= seq![]);
    assert(seq![AssistantMessageChunk::Message { block }].drop_last() =~= seq![]);
    assert(Seq::<Seq<char>>::empty().push(block.rendered@) =~= seq![block.rendered@]);
    if second.len() > 0 {
        chunks_give_their_messages(first, second.drop_last(), block);
        assert((first + second).drop_last() =~= first + second.drop_last());
        assert((first + second).last() == second.last());
        assert(chunk_texts(first + second) =~= chunk_texts(first) + chunk_texts(second));
    } else {
        assert(first + second =~= first);
        assert(chunk_texts(first) + chunk_texts(second) =~= chunk_texts(first));
    }
}

/// The text of entries is taken from them one by one: the messages of the agent, each with a
/// blank line between its parts, and nothing of the other entries.
pub proof fn entries_give_the_words_of_the_agent(
    first: Seq<AgentThreadEntry>,
    second: Seq<AgentThreadEntry>,
    entry: AgentThreadEntry,
)
    ensures
        entry_texts(first + second) == entry_texts(first) + entry_texts(second),
        !(entry.content is AssistantMessage) ==> entry_texts(seq![entry]).len() == 0,
        entry.content matches EntryContent::AssistantMessage(message) ==> {
            let words = text::joined(chunk_texts(message.chunks@), seq!['\n', '\n']);
            &&& words.len() > 0 ==> entry_texts(seq![entry]) == seq![words]
            &&& words.len() == 0 ==> entry_texts(seq![entry]).len() == 0
        },
    decreases second.len(),
{
    reveal_strlit("\n\n");
    assert("\n\n"@ =~= seq!['\n', '\n']);
    reveal_with_fuel(entry_texts, 3);
    assert(seq![entry].drop_last() =~= seq![]);
    if let EntryContent::AssistantMessage(message) = entry.content {
        let words = text::joined(chunk_texts(message.chunks@), "\n\n"@);
        assert(Seq::<Seq<char>>::empty().push(words) =~= seq![words]);
    }
    if second.len() > 0 {
        entries_give_the_words_of_the_agent(first, second.drop_last(), entry);
        assert((first + second).drop_last() =~= first + second.drop_last());
        assert((first + second).last() == second.last());
        assert(entry_texts(first + second) =~= entry_texts(first) + entry_texts(second));
    } else {
        assert(first + second =~= first);
        assert(entry_texts(first) + entry_texts(second) =~= entry_texts(first));
    }
}

/// What is copied of a response is the words of the agent between the two messages of the user
/// around it. A message of the user gives nothing, and neither does a response without words.
pub proof fn copying_takes_the_words_of_the_response(
    before: Seq<AgentThreadEntry>,
    response: Seq<AgentThreadEntry>,
    after: Seq<AgentThreadEntry>,
    i: int,
)
    requires
        before.len() == 0 || before.last().content is UserMessage,
        after.len() == 0 || after[0].content is UserMessage,
        0 <= i < response.len(),
        forall|j: int| 0 <= j < response.len() ==> !((#[trigger] response[j]).content is UserMessage),
    ensures
        ({
            let entries = before + response + after;
            let words = text::joined(entry_texts(response), seq!['\n', '\n']);
            &&& words.len() > 0 ==> response_text(entries, before.len() + i) == Some(words)
            &&& words.len() == 0 ==> response_text(entries, before.len() + i) is None
            &&& before.len() > 0 ==> response_text(entries, before.len() - 1) is None
        }),
{
    reveal_strlit("\n\n");
    assert("\n\n"@ =~= seq!['\n', '\n']);
    let entries = before + response + after;
    let index = before.len() + i;
    assert(entries[index] == response[i]);
    a_response_lies_between_two_messages(entries, index);
    let start = response_start(entries, index);
    let end = response_end(entries, index);
    let n = before.len() as int;
    let m = n + response.len();
    if start < n {
        assert(entries[n - 1] == before.last());
        assert(entries[n - 1].content is UserMessage);
    }
    if start > n {
        assert(entries[start - 1] == response[start - 1 - n]);
    }
    if end > m {
        assert(entries[m] == after[0]);
    }
    if end < m {
        assert(entries[end] == response[end - n]);
    }
    assert(entries.subrange(n, m) =~= response);
    if n > 0 {
        assert(entries[n - 1] == before.last());
    }
}

/// The agent waits for commands only where it generates, a command runs behind the last message
/// of the user, and nothing else does there.
pub proof fn waiting_for_commands_takes_a_running_command(thread: AcpThread, i: int)
    requires
        0 <= i < thread.entries@.len(),
    ensures
        blocked_on_commands(thread) ==> thread.status == ThreadStatus::Generating,
        blocked_on_commands(thread) && (forall|j: int|
            i < j < thread.entries@.len() ==> !((
            #[trigger] thread.entries@[j]).content is UserMessage)) && (
        thread.entries@[i].content matches EntryContent::ToolCall(call) && (call.status is Pending
            || call.status is InProgress)) ==> thread.entries@[i].content->ToolCall_0.kind
            == ToolKind::Execute,
        thread.status == ThreadStatus::Generating && (forall|j: int|
            i <= j < thread.entries@.len() ==> !((
            #[trigger] thread.entries@[j]).content is UserMessage)) && (
        thread.entries@[i].content matches EntryContent::ToolCall(call) && (call.status is Pending
            || call.status is InProgress) && call.kind == ToolKind::Execute) && (forall|j: int|
            0 <= j < thread.entries@.len() && (#[trigger] thread.entries@[j]).content is ToolCall
                && j != i ==> !(thread.entries@[j].content->ToolCall_0.status is Pending
                || thread.entries@[j].content->ToolCall_0.status is InProgress))
            ==> blocked_on_commands(thread),
        (forall|j: int|
            0 <= j < thread.entries@.len() ==> !((
            #[trigger] thread.entries@[j]).content is ToolCall)) ==> !blocked_on_commands(thread),
{
    let entries = thread.entries@;
    let n = entries.len() as int;
    lemma_start_bounds(entries, n);
    let start = response_start(entries, n);
    if forall|j: int| i <= j < n ==> !((#[trigger] entries[j]).content is UserMessage) {
        if start > i {
            assert(entries[start - 1].content is UserMessage);
        }
    }
    if (forall|j: int| i < j < n ==> !((#[trigger] entries[j]).content is UserMessage))
        && entries[i].content is ToolCall {
        if start > i {
            assert(entries[start - 1].content is UserMessage);
        }
        assert(start <= i);
        if blocked_on_commands(thread) && is_running_call(entries[i]) {
            assert(is_command(entries[i]));
        }
        if is_running_call(entries[i]) && is_command(entries[i]) && (forall|j: int|
            0 <= j < n && (#[trigger] entries[j]).content is ToolCall && j != i ==> !(
            entries[j].content->ToolCall_0.status is Pending
                || entries[j].content->ToolCall_0.status is InProgress)) {
            assert forall|j: int|
                start <= j < n && is_running_call(#[trigger] entries[j]) implies is_command(
                entries[j],
            ) by {
                if j != i {
                    assert(entries[j].content is ToolCall);
                }
            }
        }
    }
    if blocked_on_commands(thread) {
        let j = choose|j: int| start <= j < n && is_running_call(#[trigger] entries[j]);
        assert(entries[j].content is ToolCall);
    }
}

/// The indicator says that the user is asked, or spins unless only commands run. The time is
/// shown for long turns, and with it the tokens where there are many.
pub proof fn the_indicator_shows_the_turn(
    indicator: GeneratingIndicator,
    view: ThreadView,
    thread: AcpThread,
    confirmation: bool,
    stats: TurnStats,
    start: u64,
)
    requires
        indicator_shows(indicator, view, thread, confirmation, stats),
    ensures
        confirmation ==> indicator.spinner == Some(SpinnerVariant::Sand) && indicator.label is Some
            && indicator.label->0@ == "Awaiting Confirmation"@,
        !confirmation ==> indicator.label is None && (indicator.spinner is None
            <==> blocked_on_commands(thread)) && (indicator.spinner is Some ==> indicator.spinner
            == Some(SpinnerVariant::Dots)),
        indicator.elapsed is Some ==> stats.show_turn_stats && view.turn_fields.turn_started_at
            is Some && indicator.elapsed->0@ == stats.elapsed_text@,
        stats.show_turn_stats && view.turn_fields.turn_started_at == Some(start) && start
            + stats.stopwatch_threshold < stats.now ==> indicator.elapsed is Some,
        view.turn_fields.turn_started_at == Some(start) && stats.now <= start
            + stats.stopwatch_threshold ==> indicator.elapsed is None,
        indicator.tokens is Some ==> indicator.elapsed is Some && view.turn_fields.turn_tokens
            is Some && view.turn_fields.turn_tokens->0 > stats.token_threshold
            && indicator.tokens->0@ == stats.tokens_text@ + " tokens"@,
        indicator.elapsed is Some && view.turn_fields.turn_tokens is Some
            && view.turn_fields.turn_tokens->0 > stats.token_threshold ==> indicator.tokens is Some,
        indicator.arrow_icon == IconName::ArrowUp <==> confirmation
            || stats.has_in_progress_tool_calls,
        indicator.arrow_icon == IconName::ArrowDown <==> !confirmation
            && !stats.has_in_progress_tool_calls,
{
}

/// Scrolling to the next message stops at the nearest one behind, and does nothing where there
/// is none.
pub proof fn the_next_message_is_the_nearest(entries: Seq<AgentThreadEntry>, index: int)
    requires
        0 <= index,
        entries.len() <= usize::MAX,
    ensures
        match user_message_from(entries, index) {
            Some(found) => index <= found < entries.len() && entries[found as int].content
                is UserMessage && forall|i: int|
                index <= i < found ==> !((#[trigger] entries[i]).content is UserMessage),
            None => forall|i: int|
                index <= i < entries.len() ==> !((#[trigger] entries[i]).content is UserMessage),
        },
    decreases entries.len() - index,
{
    if index < entries.len() && !(entries[index].content is UserMessage) {
        the_next_message_is_the_nearest(entries, index + 1);
    }
}

/// Where no message of the user stands before the entry on top, scrolling back does nothing; else
/// it stops at a message of the user with none behind it.
pub proof fn scrolling_back_stops_at_a_message(entries: Seq<AgentThreadEntry>, index: int)
    requires
        0 <= index,
        entries.len() <= usize::MAX,
    ensures
        match user_message_before(entries, index) {
            Some(found) => found < index && found < entries.len() && entries[found as int].content
                is UserMessage && forall|i: int|
                found < i < index && i < entries.len() ==> !((
                #[trigger] entries[i]).content is UserMessage),
            None => forall|i: int|
                0 <= i < index && i < entries.len() ==> !((
                #[trigger] entries[i]).content is UserMessage),
        },
    decreases index,
{
    if index > 0 && !(index - 1 < entries.len() && entries[index - 1].content is UserMessage) {
        scrolling_back_stops_at_a_message(entries, index - 1);
    }
}

/// The link of the menu is the first link under it, and only Markdown has links and selections.
pub proof fn the_menu_takes_the_first_link(
    first: Seq<AssistantMessageChunk>,
    second: Seq<AssistantMessageChunk>,
    chunk: AssistantMessageChunk,
)
    ensures
        first_link(first + second) == (match first_link(first) {
            Some(link) => Some(link),
            None => first_link(second),
        }),
        first_link(seq![chunk]) is Some <==> block_of(chunk).markdown is Some && block_of(
            chunk,
        ).context_menu_link is Some,
        block_of(chunk).markdown is Some && block_of(chunk).context_menu_link is Some
            ==> first_link(seq![chunk]) == Some(block_of(chunk).context_menu_link->0@),
        is_selected(chunk) <==> block_of(chunk).markdown is Some && block_of(chunk).has_selection,
        block_of(chunk) == (match chunk {
            AssistantMessageChunk::Message { block } => block,
            AssistantMessageChunk::Thought { block } => block,
        }),
    decreases second.len(),
{
    reveal_with_fuel(first_link, 3);
    assert(seq![chunk].drop_last() =~= seq![]);
    if second.len() > 0 {
        the_menu_takes_the_first_link(first, second.drop_last(), chunk);
        assert((first + second).drop_last() =~= first + second.drop_last());
        assert((first + second).last() == second.last());
    } else {
        assert(first + second =~= first);
    }
}

/// The chunks of a message of the agent are found at its entry, and other entries have none.
pub proof fn only_the_agent_has_chunks(entries: Seq<AgentThreadEntry>, index: int)
    ensures
        0 <= index < entries.len() ==> (match entries[index].content {
            EntryContent::AssistantMessage(message) => chunks_at(entries, index)
                == message.chunks@,
            _ => chunks_at(entries, index).len() == 0,
        }),
        index >= entries.len() ==> chunks_at(entries, index).len() == 0,
{
}

} // verus!
