//! Which thinking blocks are open.

use crate::keyed::{KeySet, Keyed};
use crate::model::{
    AcpThread, AgentThreadEntry, AssistantMessageChunk, EntryContent, ThreadStatus,
};
use crate::text;
use crate::thread_view::ThreadView;
use vstd::prelude::*;

verus! {

/// The place of a thinking block: its entry, and its chunk in the entry.
#[derive(Clone, Copy, PartialEq, Eq, Structural, Debug)]
pub struct ThinkingBlockKey {
    pub entry_ix: usize,
    pub chunk_ix: usize,
}

impl Keyed for ThinkingBlockKey {
    type Key = ThinkingBlockKey;

    open spec fn key(&self) -> ThinkingBlockKey {
        *self
    }

    fn same_key(&self, other: &Self) -> (r: bool) {
        *self == *other
    }
}

/// How thinking blocks are shown.
#[derive(Clone, Copy, PartialEq, Eq, Structural, Debug)]
pub enum ThinkingBlockDisplay {
    /// Open while the agent thinks.
    Auto,
    /// Open with a limited height while the agent thinks.
    Preview,
    AlwaysExpanded,
    AlwaysCollapsed,
}

/// Whether a block is open, and whether its height is limited.
pub open spec fn block_state(
    display: ThinkingBlockDisplay,
    is_user_toggled: bool,
    is_in_expanded_set: bool,
) -> (bool, bool) {
    match display {
        ThinkingBlockDisplay::Auto => (is_user_toggled || is_in_expanded_set, false),
        ThinkingBlockDisplay::Preview => (
            is_user_toggled || is_in_expanded_set,
            is_in_expanded_set && !is_user_toggled,
        ),
        ThinkingBlockDisplay::AlwaysExpanded => (!is_user_toggled, false),
        ThinkingBlockDisplay::AlwaysCollapsed => (is_user_toggled, false),
    }
}

/// Whether the block is in the user's set and in the expanded set after a click.
pub open spec fn after_click(
    display: ThinkingBlockDisplay,
    is_user_toggled: bool,
    is_in_expanded_set: bool,
) -> (bool, bool) {
    match display {
        ThinkingBlockDisplay::Auto => if is_in_expanded_set || is_user_toggled {
            (false, false)
        } else {
            (true, true)
        },
        ThinkingBlockDisplay::Preview => if is_user_toggled {
            (false, false)
        } else {
            (true, true)
        },
        ThinkingBlockDisplay::AlwaysExpanded => (!is_user_toggled, is_in_expanded_set),
        ThinkingBlockDisplay::AlwaysCollapsed => if is_user_toggled {
            (false, false)
        } else {
            (true, true)
        },
    }
}

/// Whether the block is in the user's set and in the expanded set after a click.
pub fn click(display: ThinkingBlockDisplay, is_user_toggled: bool, is_in_expanded_set: bool) -> (r: (
    bool,
    bool,
))
    ensures
        r == after_click(display, is_user_toggled, is_in_expanded_set),
{
    match display {
        ThinkingBlockDisplay::Auto => {
            let opens = !is_in_expanded_set && !is_user_toggled;
            (opens, opens)
        },
        ThinkingBlockDisplay::Preview => (!is_user_toggled, !is_user_toggled),
        ThinkingBlockDisplay::AlwaysExpanded => (!is_user_toggled, is_in_expanded_set),
        ThinkingBlockDisplay::AlwaysCollapsed => (!is_user_toggled, !is_user_toggled),
    }
}

/// A click on a block opens it where it is closed. Where it is open, the click closes it,
/// unless its height was limited: then the click shows all of it.
pub proof fn a_click_opens_or_closes_the_block(
    display: ThinkingBlockDisplay,
    is_user_toggled: bool,
    is_in_expanded_set: bool,
)
    ensures
        ({
            let before = block_state(display, is_user_toggled, is_in_expanded_set);
            let clicked = after_click(display, is_user_toggled, is_in_expanded_set);
            let after = block_state(display, clicked.0, clicked.1);
            &&& after.0 == (!before.0 || before.1)
            &&& !after.1
        }),
{
}

/// The thought that the agent is writing: the last chunk of the last entry.
pub open spec fn streaming_thought(entries: Seq<AgentThreadEntry>) -> Option<ThinkingBlockKey> {
    if entries.len() == 0 {
        None
    } else {
        match entries.last().content {
            EntryContent::AssistantMessage(message) => if message.chunks@.len() > 0
                && message.chunks@.last() is Thought {
                Some(
                    ThinkingBlockKey {
                        entry_ix: (entries.len() - 1) as usize,
                        chunk_ix: (message.chunks@.len() - 1) as usize,
                    },
                )
            } else {
                None
            },
            _ => None,
        }
    }
}

/// The blocks that are expanded, the block that was expanded on its own, and whether
/// something changed, once the thread has changed.
pub open spec fn auto_expanded(
    view: ThreadView,
    thread: AcpThread,
    display: ThinkingBlockDisplay,
) -> (Set<ThinkingBlockKey>, Option<ThinkingBlockKey>, bool) {
    let expanded = view.expanded_thinking_blocks@;
    let auto = view.auto_expanded_thinking_block;
    if !(display == ThinkingBlockDisplay::Auto || display == ThinkingBlockDisplay::Preview)
        || thread.status != ThreadStatus::Generating {
        (expanded, auto, false)
    } else {
        match (streaming_thought(thread.entries@), auto) {
            (Some(key), _) => if auto == Some(key) {
                (expanded, auto, false)
            } else {
                (expanded.insert(key), Some(key), true)
            },
            (None, Some(key)) => (
                if display == ThinkingBlockDisplay::Auto
                    && !view.user_toggled_thinking_blocks@.contains(key) {
                    expanded.remove(key)
                } else {
                    expanded
                },
                None,
                true,
            ),
            (None, None) => (expanded, None, false),
        }
    }
}

/// The set with the key in or out.
pub open spec fn with_membership(
    set: Set<ThinkingBlockKey>,
    key: ThinkingBlockKey,
    is_in: bool,
) -> Set<ThinkingBlockKey> {
    if is_in {
        set.insert(key)
    } else {
        set.remove(key)
    }
}

/// A thinking block, ready to be drawn.
pub struct ThinkingBlock {
    pub header_id: String,
    pub is_open: bool,
    /// Whether the height is limited.
    pub is_constrained: bool,
    /// Whether the view scrolls to the end of the block.
    pub should_auto_scroll: bool,
}

/// What a thinking block shows.
pub open spec fn thinking_block_shows(
    block: ThinkingBlock,
    view: ThreadView,
    key: ThinkingBlockKey,
    display: ThinkingBlockDisplay,
) -> bool {
    &&& block.header_id@ == "thinking-block-header-"@ + text::decimal(key.entry_ix as nat)
    &&& (block.is_open, block.is_constrained) == block_state(
        display,
        view.user_toggled_thinking_blocks@.contains(key),
        view.expanded_thinking_blocks@.contains(key),
    )
    &&& block.should_auto_scroll == (view.auto_expanded_thinking_block == Some(key))
}

fn find_streaming_thought(entries: &Vec<AgentThreadEntry>) -> (r: Option<ThinkingBlockKey>)
    ensures
        r == streaming_thought(entries@),
{
    let count = entries.len();
    if count == 0 {
        return None;
    }
    match &entries[count - 1].content {
        EntryContent::AssistantMessage(message) => {
            let chunks = message.chunks.len();
            if chunks == 0 {
                return None;
            }
            match &message.chunks[chunks - 1] {
                AssistantMessageChunk::Thought { .. } => Some(
                    ThinkingBlockKey { entry_ix: count - 1, chunk_ix: chunks - 1 },
                ),
                AssistantMessageChunk::Message { .. } => None,
            }
        },
        _ => None,
    }
}

fn auto_expand(
    expanded: &mut KeySet<ThinkingBlockKey>,
    auto_expanded: &mut Option<ThinkingBlockKey>,
    key: Option<ThinkingBlockKey>,
    display: ThinkingBlockDisplay,
    is_toggled: bool,
) -> (changed: bool)
    ensures
        (final(expanded)@, *final(auto_expanded), changed) == (match (key, *old(auto_expanded)) {
            (Some(key), auto) => if auto == Some(key) {
                (old(expanded)@, auto, false)
            } else {
                (old(expanded)@.insert(key), Some(key), true)
            },
            (None, Some(auto)) => (
                if display == ThinkingBlockDisplay::Auto && !is_toggled {
                    old(expanded)@.remove(auto)
                } else {
                    old(expanded)@
                },
                None,
                true,
            ),
            (None, None) => (old(expanded)@, None, false),
        }),
{
    match key {
        Some(key) => {
            let is_same = match auto_expanded {
                Some(auto) => *auto == key,
                None => false,
            };
            if is_same {
                return false;
            }
            *auto_expanded = Some(key);
            expanded.insert(key);
            true
        },
        None => match auto_expanded.take() {
            Some(auto) => {
                if display == ThinkingBlockDisplay::Auto && !is_toggled {
                    expanded.remove(&auto);
                }
                true
            },
            None => false,
        },
    }
}

fn set_membership(set: &mut KeySet<ThinkingBlockKey>, key: ThinkingBlockKey, is_in: bool)
    ensures
        final(set)@ == with_membership(old(set)@, key, is_in),
{
    if is_in {
        set.insert(key);
    } else {
        set.remove(&key);
    }
}

impl ThreadView {
    /// Expands the thought that the agent is writing, and collapses it again once the agent
    /// goes on, where thinking blocks open on their own; says whether something changed.
    pub fn auto_expand_streaming_thought(
        &mut self,
        thread: &AcpThread,
        display: ThinkingBlockDisplay,
    ) -> (changed: bool)
        ensures
            *final(self) == (ThreadView {
                expanded_thinking_blocks: final(self).expanded_thinking_blocks,
                auto_expanded_thinking_block: final(self).auto_expanded_thinking_block,
                ..*old(self)
            }),
            (
                final(self).expanded_thinking_blocks@,
                final(self).auto_expanded_thinking_block,
                changed,
            ) == auto_expanded(*old(self), *thread, display),
    {
        let key = if thread.status == ThreadStatus::Generating {
            find_streaming_thought(&thread.entries)
        } else {
            return false;
        };
        match display {
            ThinkingBlockDisplay::Auto => {},
            ThinkingBlockDisplay::Preview => {},
            ThinkingBlockDisplay::AlwaysExpanded => {
                return false;
            },
            ThinkingBlockDisplay::AlwaysCollapsed => {
                return false;
            },
        }
        let is_toggled = match &self.auto_expanded_thinking_block {
            Some(auto) => self.user_toggled_thinking_blocks.contains(auto),
            None => false,
        };
        auto_expand(
            &mut self.expanded_thinking_blocks,
            &mut self.auto_expanded_thinking_block,
            key,
            display,
            is_toggled,
        )
    }

    /// Forgets which block was expanded on its own.
    pub fn clear_auto_expand_tracking(&mut self)
        ensures
            *final(self) == (ThreadView { auto_expanded_thinking_block: None, ..*old(self) }),
    {
        self.auto_expanded_thinking_block = None;
    }

    /// Opens or closes a thinking block on a click.
    pub fn toggle_thinking_block_expansion(
        &mut self,
        key: ThinkingBlockKey,
        display: ThinkingBlockDisplay,
    )
        ensures
            *final(self) == (ThreadView {
                expanded_thinking_blocks: final(self).expanded_thinking_blocks,
                user_toggled_thinking_blocks: final(self).user_toggled_thinking_blocks,
                ..*old(self)
            }),
            ({
                let toggled = old(self).user_toggled_thinking_blocks@;
                let expanded = old(self).expanded_thinking_blocks@;
                let after = after_click(
                    display,
                    toggled.contains(key),
                    expanded.contains(key),
                );
                &&& final(self).user_toggled_thinking_blocks@ == with_membership(
                    toggled,
                    key,
                    after.0,
                )
                &&& final(self).expanded_thinking_blocks@ == with_membership(
                    expanded,
                    key,
                    after.1,
                )
            }),
    {
        let is_toggled = self.user_toggled_thinking_blocks.contains(&key);
        let is_expanded = self.expanded_thinking_blocks.contains(&key);
        let (toggled, expanded) = click(display, is_toggled, is_expanded);
        set_membership(&mut self.user_toggled_thinking_blocks, key, toggled);
        set_membership(&mut self.expanded_thinking_blocks, key, expanded);
    }

    /// A thinking block, ready to be drawn.
    pub fn render_thinking_block(&self, key: ThinkingBlockKey, display: ThinkingBlockDisplay) -> (r:
        ThinkingBlock)
        ensures
            thinking_block_shows(r, *self, key, display),
    {
        let is_toggled = self.user_toggled_thinking_blocks.contains(&key);
        let is_expanded = self.expanded_thinking_blocks.contains(&key);
        let (is_open, is_constrained) = match display {
            ThinkingBlockDisplay::Auto => (is_toggled || is_expanded, false),
            ThinkingBlockDisplay::Preview => (is_toggled || is_expanded, is_expanded && !is_toggled),
            ThinkingBlockDisplay::AlwaysExpanded => (!is_toggled, false),
            ThinkingBlockDisplay::AlwaysCollapsed => (is_toggled, false),
        };
        let should_auto_scroll = match self.auto_expanded_thinking_block {
            Some(auto) => auto == key,
            None => false,
        };
        ThinkingBlock {
            header_id: text::with_count("thinking-block-header-", key.entry_ix),
            is_open,
            is_constrained,
            should_auto_scroll,
        }
    }
}

/// Blocks that open on their own are open where the user or the agent has opened them, and their
/// height is limited only in previews that the user has not opened. Blocks that are always open
/// are closed by the user, and blocks that are always closed are opened by the user.
pub proof fn blocks_are_open_as_their_display_says(toggled: bool, expanded: bool)
    ensures
        block_state(ThinkingBlockDisplay::Auto, toggled, expanded).0 <==> toggled || expanded,
        block_state(ThinkingBlockDisplay::Preview, toggled, expanded).0 <==> toggled || expanded,
        block_state(ThinkingBlockDisplay::AlwaysExpanded, toggled, expanded).0 <==> !toggled,
        block_state(ThinkingBlockDisplay::AlwaysCollapsed, toggled, expanded).0 <==> toggled,
        block_state(ThinkingBlockDisplay::Preview, toggled, expanded).1 <==> expanded && !toggled,
        !block_state(ThinkingBlockDisplay::Auto, toggled, expanded).1,
        !block_state(ThinkingBlockDisplay::AlwaysExpanded, toggled, expanded).1,
        !block_state(ThinkingBlockDisplay::AlwaysCollapsed, toggled, expanded).1,
{
}

/// After a click on an open block nothing keeps it open, and a click on a closed block, or on a
/// preview, marks it as opened by the user. A block that is always open is closed by a mark, and
/// what the agent has opened is left alone there.
pub proof fn a_click_marks_or_clears_the_block(
    display: ThinkingBlockDisplay,
    toggled: bool,
    expanded: bool,
)
    ensures
        ({
            let before = block_state(display, toggled, expanded);
            let after = after_click(display, toggled, expanded);
            &&& display != ThinkingBlockDisplay::AlwaysExpanded && before.0 && !before.1
                ==> after == (false, false)
            &&& display != ThinkingBlockDisplay::AlwaysExpanded && (!before.0 || before.1)
                ==> after == (true, true)
            &&& display == ThinkingBlockDisplay::AlwaysExpanded ==> after == (!toggled, expanded)
        }),
{
}

/// The thought that is being written is the last chunk of the last entry, where that is a
/// message of the agent and ends in a thought.
pub proof fn the_streaming_thought_comes_last(entries: Seq<AgentThreadEntry>)
    requires
        entries.len() <= usize::MAX,
    ensures
        streaming_thought(entries) matches Some(key) ==> {
            &&& key.entry_ix == entries.len() - 1
            &&& entries[key.entry_ix as int].content matches EntryContent::AssistantMessage(message)
                && key.chunk_ix == message.chunks@.len() - 1 && message.chunks@[key.chunk_ix as int]
                is Thought
        },
        entries.len() > 0 && (entries[entries.len() - 1].content matches
            EntryContent::AssistantMessage(message) && message.chunks@.len() > 0
            && message.chunks@[message.chunks@.len() - 1] is Thought) ==> streaming_thought(entries)
            is Some,
        entries.len() == 0 ==> streaming_thought(entries) is None,
{
    if entries.len() > 0 {
        if let EntryContent::AssistantMessage(message) = entries.last().content {
            assert(message.chunks.len() == message.chunks@.len());
        }
    }
}

/// While the agent writes a thought, its block is expanded, where blocks open on their own. Once
/// the agent goes on, a block that the user has not touched is collapsed again, unless blocks are
/// previews. Else nothing changes, and blocks that are not concerned never do.
pub proof fn thoughts_open_while_they_are_written(
    view: ThreadView,
    thread: AcpThread,
    display: ThinkingBlockDisplay,
    key: ThinkingBlockKey,
    other: ThinkingBlockKey,
)
    ensures
        ({
            let after = auto_expanded(view, thread, display);
            let opens = display == ThinkingBlockDisplay::Auto || display
                == ThinkingBlockDisplay::Preview;
            let expanded = view.expanded_thinking_blocks@;
            &&& !opens || thread.status == ThreadStatus::Idle ==> after == (
                expanded,
                view.auto_expanded_thinking_block,
                false,
            )
            &&& opens && thread.status == ThreadStatus::Generating && streaming_thought(
                thread.entries@,
            ) == Some(key) ==> {
                &&& after.1 == Some(key)
                &&& after.2 <==> view.auto_expanded_thinking_block != Some(key)
                &&& after.2 ==> after.0.contains(key)
                &&& !after.2 ==> after.0 == expanded
                &&& other != key ==> after.0.contains(other) == expanded.contains(other)
            }
            &&& opens && thread.status == ThreadStatus::Generating && streaming_thought(
                thread.entries@,
            ) is None ==> {
                &&& after.1 is None
                &&& after.2 <==> view.auto_expanded_thinking_block is Some
                &&& view.auto_expanded_thinking_block == Some(key) ==> {
                    &&& after.0.contains(key) <==> expanded.contains(key) && (display
                        == ThinkingBlockDisplay::Preview
                        || view.user_toggled_thinking_blocks@.contains(key))
                    &&& other != key ==> after.0.contains(other) == expanded.contains(other)
                }
                &&& view.auto_expanded_thinking_block is None ==> after.0 == expanded
            }
        }),
{
}

/// A block goes into a set or out of it, and no other block does.
pub proof fn one_block_goes_in_or_out(
    set: Set<ThinkingBlockKey>,
    key: ThinkingBlockKey,
    other: ThinkingBlockKey,
    is_in: bool,
)
    ensures
        with_membership(set, key, is_in).contains(key) == is_in,
        other != key ==> with_membership(set, key, is_in).contains(other) == set.contains(other),
{
}

/// A block is drawn as its state has it, and scrolls along while the agent writes it.
pub proof fn blocks_are_drawn_as_they_stand(
    block: ThinkingBlock,
    view: ThreadView,
    key: ThinkingBlockKey,
    display: ThinkingBlockDisplay,
)
    requires
        thinking_block_shows(block, view, key, display),
    ensures
        block.header_id@ == "thinking-block-header-"@ + text::decimal(key.entry_ix as nat),
        block.should_auto_scroll <==> view.auto_expanded_thinking_block == Some(key),
        block.is_constrained ==> block.is_open && display == ThinkingBlockDisplay::Preview,
        display == ThinkingBlockDisplay::AlwaysExpanded ==> (block.is_open
            <==> !view.user_toggled_thinking_blocks@.contains(key)),
        display == ThinkingBlockDisplay::AlwaysCollapsed ==> (block.is_open
            <==> view.user_toggled_thinking_blocks@.contains(key)),
        display == ThinkingBlockDisplay::Auto || display == ThinkingBlockDisplay::Preview ==> (
        block.is_open <==> view.user_toggled_thinking_blocks@.contains(key)
            || view.expanded_thinking_blocks@.contains(key)),
{
}

} // verus!
