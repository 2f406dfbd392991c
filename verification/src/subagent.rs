//! What is shown of subagents: their badges, their cards and the bar above their threads.

use crate::keyed::Keyed;
use crate::model::{
    AcpThread, AgentPersona, Color, ContentBlock, IconName, StatusIcon, ThreadStatus, ToolCall,
    ToolCallContent, ToolCallId, ToolCallStatus,
};
use crate::model;
use crate::terminal_card::{CardContext, TerminalCard, ToolCallLayout};
use crate::terminal_card;
use crate::text;
use crate::thread_view::ThreadView;
use crate::tool_call::ToolCallCard;
use crate::tool_call;
use vstd::prelude::*;
use vstd::string::*;

verus! {

/// The most entries that the preview of a subagent shows.
pub const MAX_PREVIEW_ENTRIES: usize = 8;

/// What the badge of a persona says.
#[derive(Clone, Copy, PartialEq, Eq, Structural, Debug)]
pub enum BadgeLabel {
    /// The word for any subagent.
    Subagent,
    /// The name of the persona.
    NameOf(AgentPersona),
}

/// The badge of a persona.
#[derive(Clone, Copy, PartialEq, Eq, Structural, Debug)]
pub struct PersonaBadge {
    pub label: BadgeLabel,
    pub icon: IconName,
    pub color: Color,
}

/// The icon and the colour of a persona.
pub open spec fn persona_look(persona: AgentPersona) -> (IconName, Color) {
    match persona {
        AgentPersona::Implementer => (IconName::ToolPencil, Color::Success),
        AgentPersona::Reviewer => (IconName::Eye, Color::Accent),
        AgentPersona::Researcher => (IconName::ToolSearch, Color::Info),
        AgentPersona::Explorer => (IconName::Folder, Color::Muted),
        AgentPersona::General => (IconName::AiZed, Color::Muted),
        AgentPersona::Plan => (IconName::ListTodo, Color::Accent),
        AgentPersona::Architect => (IconName::Notepad, Color::Info),
        AgentPersona::Verifier => (IconName::CheckDouble, Color::Success),
    }
}

/// What the badge of a persona shows: the name of the persona, or that it is a subagent where
/// the persona is the general one. Without a persona there is no badge.
pub open spec fn badge_shows(badge: Option<PersonaBadge>, persona: Option<AgentPersona>) -> bool {
    badge == (match persona {
        Some(persona) => Some(
            PersonaBadge {
                label: if persona == AgentPersona::General {
                    BadgeLabel::Subagent
                } else {
                    BadgeLabel::NameOf(persona)
                },
                icon: persona_look(persona).0,
                color: persona_look(persona).1,
            },
        ),
        None => None,
    })
}

/// The badge of a persona.
pub fn render_persona_badge(persona: Option<AgentPersona>) -> (r: Option<PersonaBadge>)
    ensures
        badge_shows(r, persona),
{
    let persona = match persona {
        Some(persona) => persona,
        None => {
            return None;
        },
    };
    let (icon, color): (IconName, Color) = match persona {
        AgentPersona::Implementer => (IconName::ToolPencil, Color::Success),
        AgentPersona::Reviewer => (IconName::Eye, Color::Accent),
        AgentPersona::Researcher => (IconName::ToolSearch, Color::Info),
        AgentPersona::Explorer => (IconName::Folder, Color::Muted),
        AgentPersona::General => (IconName::AiZed, Color::Muted),
        AgentPersona::Plan => (IconName::ListTodo, Color::Accent),
        AgentPersona::Architect => (IconName::Notepad, Color::Info),
        AgentPersona::Verifier => (IconName::CheckDouble, Color::Success),
    };
    let label = match persona {
        AgentPersona::General => BadgeLabel::Subagent,
        _ => BadgeLabel::NameOf(persona),
    };
    Some(PersonaBadge { label, icon, color })
}

/// The words on the badge of a persona. `review_name` is the name of the persona that looks
/// over the work of others; the other names are fixed.
pub open spec fn badge_word(label: BadgeLabel, review_name: Seq<char>) -> Seq<char> {
    match label {
        BadgeLabel::Subagent => "Subagent"@,
        BadgeLabel::NameOf(AgentPersona::General) => "General"@,
        BadgeLabel::NameOf(AgentPersona::Implementer) => "Implementer"@,
        BadgeLabel::NameOf(AgentPersona::Reviewer) => review_name,
        BadgeLabel::NameOf(AgentPersona::Researcher) => "Researcher"@,
        BadgeLabel::NameOf(AgentPersona::Explorer) => "Explorer"@,
        BadgeLabel::NameOf(AgentPersona::Plan) => "Plan"@,
        BadgeLabel::NameOf(AgentPersona::Architect) => "Architect"@,
        BadgeLabel::NameOf(AgentPersona::Verifier) => "Verifier"@,
    }
}

impl BadgeLabel {
    /// The words on the badge of a persona.
    pub fn text(&self, review_name: &str) -> (r: String)
        ensures
            r@ == badge_word(*self, review_name@),
    {
        let word: &str = match self {
            BadgeLabel::Subagent => "Subagent",
            BadgeLabel::NameOf(persona) => match persona {
                AgentPersona::General => "General",
                AgentPersona::Implementer => "Implementer",
                AgentPersona::Reviewer => review_name,
                AgentPersona::Researcher => "Researcher",
                AgentPersona::Explorer => "Explorer",
                AgentPersona::Plan => "Plan",
                AgentPersona::Architect => "Architect",
                AgentPersona::Verifier => "Verifier",
            },
        };
        word.to_owned()
    }
}

/// The thread of a subagent, and what is known of it.
pub struct SubagentThread<'a> {
    pub thread: &'a AcpThread,
    pub files_changed: usize,
    pub lines_added: u32,
    pub lines_removed: u32,
    /// Whether the conversation waits for an answer to a call of the subagent.
    pub has_pending_call: bool,
    /// The entry of that call in the thread of the subagent.
    pub pending_entry_ix: Option<usize>,
}

/// The icon of a subagent, with its tooltip.
pub struct SubagentIcon {
    pub icon: StatusIcon,
    pub tooltip: Option<&'static str>,
}

/// What a subagent changed.
pub struct SubagentChanges {
    pub label: String,
    pub lines_added: u32,
    pub lines_removed: u32,
}

/// The entries of a subagent that are previewed.
#[derive(Clone, Copy, PartialEq, Eq, Structural, Debug)]
pub struct EntryRange {
    pub start: usize,
    /// The index behind the last one.
    pub end: usize,
}

/// What stands below the header of the card of a subagent.
pub enum SubagentBody {
    Nothing,
    /// The call that waits for an answer, and a button for the whole thread.
    PendingCall { entry_ix: usize, is_dashed: bool },
    /// The last entries, an error, and a button for the whole thread.
    Preview { entries: EntryRange, is_dashed: bool, error: Option<String>, toggle_is_dashed: bool },
}

/// The card of a subagent.
pub struct SubagentCard {
    pub icon: SubagentIcon,
    pub badge: Option<PersonaBadge>,
    pub title: String,
    pub changes: Option<SubagentChanges>,
    pub is_dashed: bool,
    pub has_header_background: bool,
    /// The note of the tooltip, which shows the title.
    pub tooltip_meta: Option<&'static str>,
    /// The icon that expands or collapses the card.
    pub disclosure: Option<IconName>,
    pub has_stop_button: bool,
    pub body: SubagentBody,
}

/// Whether the piece of output says that the user canceled.
pub open spec fn says_canceled(content: ToolCallContent) -> bool {
    content matches ToolCallContent::ContentBlock(ContentBlock::Markdown { source })
        && source@ == "User canceled"@
}

/// Whether the subagent of the call was canceled.
pub open spec fn is_cancelled(call: ToolCall) -> bool {
    call.status is Canceled || exists|i: int|
        0 <= i < call.content@.len() && says_canceled(#[trigger] call.content@[i])
}

/// Whether the subagent of the call is at work.
pub open spec fn is_running(call: ToolCall) -> bool {
    call.status.under_way() || call.status is WaitingForConfirmation
}

/// Whether the subagent of the call failed.
pub open spec fn is_failed(call: ToolCall) -> bool {
    call.status is Failed || call.status is Rejected
}

/// The title of a subagent's thread, where it has one.
pub open spec fn subagent_title(subagent: Option<SubagentThread>) -> Option<Seq<char>> {
    match subagent {
        Some(subagent) => match subagent.thread.title {
            Some(title) => if title@.len() > 0 {
                Some(title@)
            } else {
                None
            },
            None => None,
        },
        None => None,
    }
}

/// The title of the card of a subagent.
pub open spec fn card_title(call: ToolCall, subagent: Option<SubagentThread>) -> Seq<char> {
    match subagent_title(subagent) {
        Some(title) => title,
        None => if call.label@.len() > 0 {
            call.label@
        } else if is_cancelled(call) {
            "Subagent Canceled"@
        } else if is_failed(call) {
            "Subagent Failed"@
        } else {
            "Spawning Agent…"@
        },
    }
}

/// Whether the subagent has no title yet, or ended badly.
pub open spec fn has_no_title_or_ended_badly(
    call: ToolCall,
    subagent: Option<SubagentThread>,
) -> bool {
    (subagent_title(subagent) is None && call.label@.len() == 0) || is_failed(call) || is_cancelled(
        call,
    )
}

/// What the icon of a subagent shows.
pub open spec fn icon_shows(icon: SubagentIcon, call: ToolCall) -> bool {
    if is_running(call) {
        icon.icon == StatusIcon::Spinner && icon.tooltip is None
    } else if is_cancelled(call) {
        icon.icon == StatusIcon::Icon(IconName::Circle, Color::DisabledIcon)
            && text::reference_view(icon.tooltip) == Some("Subagent Cancelled"@)
    } else if is_failed(call) {
        icon.icon == StatusIcon::Icon(IconName::Close, Color::Error) && text::reference_view(
            icon.tooltip,
        ) == Some("Subagent Failed"@)
    } else {
        icon.icon == StatusIcon::Icon(IconName::Check, Color::Success) && icon.tooltip is None
    }
}

/// The label for a number of changed files.
pub open spec fn changes_label(files: nat) -> Seq<char> {
    "- "@ + text::decimal(files) + " "@ + (if files == 1 {
        "file"@
    } else {
        "files"@
    }) + " changed"@
}

/// What is shown of the changes of a subagent.
pub open spec fn changes_show(
    changes: Option<SubagentChanges>,
    subagent: Option<SubagentThread>,
) -> bool {
    match (changes, subagent) {
        (Some(changes), Some(subagent)) => {
            &&& subagent.files_changed > 0
            &&& changes.label@ == changes_label(subagent.files_changed as nat)
            &&& changes.lines_added == subagent.lines_added
            &&& changes.lines_removed == subagent.lines_removed
        },
        (Some(_), None) => false,
        (None, Some(subagent)) => subagent.files_changed == 0,
        (None, None) => true,
    }
}

/// The error that a failed call reports: the first text that is not empty and does not say
/// that the user canceled.
pub open spec fn first_error(content: Seq<ToolCallContent>) -> Option<Seq<char>>
    decreases content.len(),
{
    if content.len() == 0 {
        None
    } else {
        match first_error(content.drop_last()) {
            Some(message) => Some(message),
            None => match content.last() {
                ToolCallContent::ContentBlock(ContentBlock::Markdown { source }) => if source@.len()
                    > 0 && source@ != "User canceled"@ {
                    Some(source@)
                } else {
                    None
                },
                _ => None,
            },
        }
    }
}

/// The error of the subagent of a call.
pub fn subagent_error_message(tool_call: &ToolCall) -> (r: Option<String>)
    ensures
        text::optional_view(r) == (if tool_call.status is Failed {
            first_error(tool_call.content@)
        } else {
            None
        }),
{
    if !matches!(&tool_call.status, ToolCallStatus::Failed) {
        return None;
    }
    let content = &tool_call.content;
    let mut found: Option<String> = None;
    let mut i: usize = 0;
    while i < content.len()
        invariant
            i <= content@.len(),
            text::optional_view(found) == first_error(content@.take(i as int)),
        decreases content@.len() - i,
    {
        assert(content@.take(i + 1).drop_last() == content@.take(i as int));
        if found.is_none() {
            if let ToolCallContent::ContentBlock(ContentBlock::Markdown { source }) = &content[i] {
                if !source.as_str().is_empty() && !text::same_text(
                    source.as_str(),
                    "User canceled",
                ) {
                    found = Some(source.clone());
                }
            }
        }
        i = i + 1;
    }
    assert(content@.take(i as int) == content@);
    found
}

/// The entries of a subagent that are previewed: the last ones of those that the call is
/// about.
pub open spec fn preview_range(call: ToolCall, total_entries: nat) -> (nat, nat) {
    let (first, end) = match call.subagent_session_info {
        Some(info) => (
            info.message_start_index as nat,
            match info.message_end_index {
                Some(last) => if last + 1 < total_entries {
                    (last + 1) as nat
                } else {
                    total_entries
                },
                None => total_entries,
            },
        ),
        None => (0nat, total_entries),
    };
    let start = if end >= MAX_PREVIEW_ENTRIES && end - MAX_PREVIEW_ENTRIES > first {
        (end - MAX_PREVIEW_ENTRIES) as nat
    } else {
        first
    };
    if start <= end {
        (start, end)
    } else {
        (end, end)
    }
}

/// Whether the index of the last message of the call's subagent leaves room for the next.
pub open spec fn has_room_behind(call: ToolCall) -> bool {
    call.subagent_session_info matches Some(info) ==> info.message_end_index matches Some(last)
        ==> last < usize::MAX
}

/// The entries of a subagent that are previewed.
pub fn render_subagent_expanded_content(tool_call: &ToolCall, total_entries: usize) -> (r:
    EntryRange)
    requires
        has_room_behind(*tool_call),
    ensures
        (r.start as nat, r.end as nat) == preview_range(*tool_call, total_entries as nat),
{
    let (first, end): (usize, usize) = match &tool_call.subagent_session_info {
        Some(info) => {
            let end: usize = match info.message_end_index {
                Some(last) => if last + 1 < total_entries {
                    last + 1
                } else {
                    total_entries
                },
                None => total_entries,
            };
            (info.message_start_index, end)
        },
        None => (0, total_entries),
    };
    let earliest: usize = if end >= MAX_PREVIEW_ENTRIES {
        end - MAX_PREVIEW_ENTRIES
    } else {
        0
    };
    let start: usize = if earliest > first {
        earliest
    } else {
        first
    };
    if start <= end {
        EntryRange { start, end }
    } else {
        EntryRange { start: end, end }
    }
}

/// The preview of a subagent shows at most so many entries as fit, all of them entries of its
/// thread. Where the call is about enough entries, it shows as many as fit.
pub proof fn preview_is_short_and_within_the_thread(call: ToolCall, total_entries: nat)
    ensures
        ({
            let (start, end) = preview_range(call, total_entries);
            &&& start <= end <= total_entries
            &&& end - start <= MAX_PREVIEW_ENTRIES
            &&& call.subagent_session_info is None && total_entries >= MAX_PREVIEW_ENTRIES
                ==> end - start == MAX_PREVIEW_ENTRIES && end == total_entries
        }),
{
}

/// What stands below the header of the card of a subagent.
pub open spec fn body_shows(
    body: SubagentBody,
    call: ToolCall,
    subagent: Option<SubagentThread>,
    is_expanded: bool,
) -> bool {
    match subagent {
        None => body is Nothing,
        Some(subagent) => if is_running(call) && subagent.has_pending_call {
            match subagent.pending_entry_ix {
                Some(entry_ix) => body == (SubagentBody::PendingCall {
                    entry_ix,
                    is_dashed: is_failed(call),
                }),
                None => body is Nothing,
            }
        } else if is_expanded {
            body matches SubagentBody::Preview { entries, is_dashed, error, toggle_is_dashed } && {
                &&& (entries.start as nat, entries.end as nat) == preview_range(
                    call,
                    subagent.thread.entries@.len(),
                )
                &&& is_dashed == call.status.ended_badly()
                &&& text::optional_view(error) == (if call.status is Failed {
                    first_error(call.content@)
                } else {
                    None
                })
                &&& toggle_is_dashed == is_failed(call)
            }
        } else {
            body is Nothing
        },
    }
}

/// What the card of a subagent shows.
pub open spec fn subagent_card_shows(
    card: SubagentCard,
    view: ThreadView,
    call: ToolCall,
    subagent: Option<SubagentThread>,
) -> bool {
    let is_expanded = view.expanded_tool_calls@.contains(call.id.key());
    let is_pending = subagent matches Some(subagent) && subagent.has_pending_call;
    let ended_badly = has_no_title_or_ended_badly(call, subagent);
    &&& icon_shows(card.icon, call)
    &&& badge_shows(
        card.badge,
        match call.subagent_session_info {
            Some(info) => info.persona,
            None => None,
        },
    )
    &&& card.title@ == card_title(call, subagent)
    &&& changes_show(card.changes, subagent)
    &&& card.is_dashed == ended_badly
    &&& card.has_header_background == !ended_badly
    &&& text::reference_view(card.tooltip_meta) == (if !ended_badly && !is_pending {
        Some(
            if is_expanded {
                "Click to Collapse"@
            } else {
                "Click to Preview"@
            },
        )
    } else {
        None
    })
    &&& card.disclosure == (if !is_pending && (subagent matches Some(subagent)
        && subagent.thread.entries@.len() > 0) {
        Some(
            if is_expanded {
                IconName::ChevronUp
            } else {
                IconName::ChevronDown
            },
        )
    } else {
        None
    })
    &&& card.has_stop_button == (is_running(call) && subagent is Some)
    &&& body_shows(card.body, call, subagent, is_expanded)
}

fn call_is_cancelled(tool_call: &ToolCall) -> (r: bool)
    ensures
        r == is_cancelled(*tool_call),
{
    if matches!(&tool_call.status, ToolCallStatus::Canceled) {
        return true;
    }
    let mut i: usize = 0;
    while i < tool_call.content.len()
        invariant
            i <= tool_call.content@.len(),
            forall|j: int| 0 <= j < i ==> !says_canceled(#[trigger] tool_call.content@[j]),
        decreases tool_call.content@.len() - i,
    {
        if let ToolCallContent::ContentBlock(ContentBlock::Markdown { source }) =
            &tool_call.content[i] {
            if text::same_text(source.as_str(), "User canceled") {
                assert(says_canceled(tool_call.content@[i as int]));
                return true;
            }
        }
        i = i + 1;
    }
    false
}

fn title_of(subagent: &Option<SubagentThread>) -> (r: Option<String>)
    ensures
        text::optional_view(r) == subagent_title(*subagent),
{
    match subagent {
        Some(subagent) => match &subagent.thread.title {
            Some(title) => if title.as_str().is_empty() {
                None
            } else {
                Some(title.clone())
            },
            None => None,
        },
        None => None,
    }
}

/// A call as it is drawn.
pub enum AnyToolCall {
    Subagent(SubagentCard),
    Terminals(Vec<TerminalCard>),
    Call(ToolCallCard),
}

/// The terminals among pieces of output, in order.
pub open spec fn terminals(content: Seq<ToolCallContent>) -> Seq<model::Terminal>
    decreases content.len(),
{
    if content.len() == 0 {
        seq![]
    } else {
        match content.last() {
            ToolCallContent::Terminal(terminal) => terminals(content.drop_last()).push(terminal),
            _ => terminals(content.drop_last()),
        }
    }
}

/// What is drawn of a call: the card of a subagent, the cards of its commands, or its own.
pub open spec fn any_tool_call_shows(
    shown: AnyToolCall,
    view: ThreadView,
    call: ToolCall,
    entry_ix: usize,
    layout: ToolCallLayout,
    subagent: Option<SubagentThread>,
    context: CardContext,
) -> bool {
    if call.is_subagent {
        shown matches AnyToolCall::Subagent(card) && subagent_card_shows(card, view, call, subagent)
    } else if model::has_terminal(call.content@) {
        shown matches AnyToolCall::Terminals(cards) && {
            &&& cards@.len() == terminals(call.content@).len()
            &&& forall|i: int|
                #![trigger cards@[i]]
                0 <= i < cards@.len() ==> terminal_card::terminal_card_shows(
                    cards@[i],
                    view,
                    terminals(call.content@)[i],
                    call,
                    entry_ix,
                    layout,
                    context,
                )
        }
    } else {
        shown matches AnyToolCall::Call(card) && tool_call::tool_call_shows(
            card,
            view,
            call,
            entry_ix,
            layout,
            context,
        )
    }
}

/// The bar above the thread of a subagent.
pub struct SubagentTitlebar {
    pub is_dashed: bool,
    pub badge: Option<PersonaBadge>,
    /// The icon behind the title of a subagent that is done.
    pub icon: Option<(IconName, Color)>,
    pub has_stop_button: bool,
    /// The thread that the bar leads back to.
    pub parent_session_id: String,
}

/// What the bar above the thread of a subagent shows.
pub open spec fn titlebar_shows(
    bar: SubagentTitlebar,
    thread: AcpThread,
    is_canceled_or_failed: bool,
) -> bool {
    let is_done = thread.status == ThreadStatus::Idle;
    &&& bar.is_dashed == (is_done && is_canceled_or_failed)
    &&& badge_shows(bar.badge, thread.persona)
    &&& bar.icon == (if !is_done {
        None
    } else if is_canceled_or_failed {
        Some((IconName::Close, Color::Error))
    } else {
        Some((IconName::Check, Color::Success))
    })
    &&& bar.has_stop_button == !is_done
    &&& text::optional_view(thread.parent_session_id) == Some(bar.parent_session_id@)
}

impl ThreadView {
    /// The card of the subagent that a call has spawned.
    pub fn render_subagent_card(&self, tool_call: &ToolCall, subagent: &Option<SubagentThread>) -> (r:
        SubagentCard)
        requires
            has_room_behind(*tool_call),
        ensures
            subagent_card_shows(r, *self, *tool_call, *subagent),
    {
        let is_expanded = self.expanded_tool_calls.contains(&tool_call.id);
        let is_running = tool_call.status.is_under_way() || tool_call.status.is_waiting();
        let is_failed = matches!(
            &tool_call.status,
            ToolCallStatus::Failed | ToolCallStatus::Rejected
        );
        let is_cancelled = call_is_cancelled(tool_call);
        let persona = match &tool_call.subagent_session_info {
            Some(info) => info.persona,
            None => None,
        };
        let thread_title = title_of(subagent);
        let has_label = !tool_call.label.as_str().is_empty();
        let has_title = thread_title.is_some() || has_label;
        let ended_badly = !has_title || is_failed || is_cancelled;
        let title = match thread_title {
            Some(title) => title,
            None => if has_label {
                tool_call.label.clone()
            } else if is_cancelled {
                "Subagent Canceled".to_owned()
            } else if is_failed {
                "Subagent Failed".to_owned()
            } else {
                "Spawning Agent…".to_owned()
            },
        };
        let icon = if is_running {
            SubagentIcon { icon: StatusIcon::Spinner, tooltip: None }
        } else if is_cancelled {
            SubagentIcon {
                icon: StatusIcon::Icon(IconName::Circle, Color::DisabledIcon),
                tooltip: Some("Subagent Cancelled"),
            }
        } else if is_failed {
            SubagentIcon {
                icon: StatusIcon::Icon(IconName::Close, Color::Error),
                tooltip: Some("Subagent Failed"),
            }
        } else {
            SubagentIcon {
                icon: StatusIcon::Icon(IconName::Check, Color::Success),
                tooltip: None,
            }
        };
        let (changes, is_pending, has_content) = match subagent {
            Some(subagent) => {
                let changes = if subagent.files_changed > 0 {
                    let mut label = text::with_count("- ", subagent.files_changed);
                    label.append(" ");
                    label.append(
                        if subagent.files_changed == 1 {
                            "file"
                        } else {
                            "files"
                        },
                    );
                    label.append(" changed");
                    Some(
                        SubagentChanges {
                            label,
                            lines_added: subagent.lines_added,
                            lines_removed: subagent.lines_removed,
                        },
                    )
                } else {
                    None
                };
                (changes, subagent.has_pending_call, subagent.thread.entries.len() > 0)
            },
            None => (None, false, false),
        };
        let tooltip_meta: Option<&'static str> = if !ended_badly && !is_pending {
            Some(
                if is_expanded {
                    "Click to Collapse"
                } else {
                    "Click to Preview"
                },
            )
        } else {
            None
        };
        let disclosure = if has_content && !is_pending {
            Some(
                if is_expanded {
                    IconName::ChevronUp
                } else {
                    IconName::ChevronDown
                },
            )
        } else {
            None
        };
        let body = match subagent {
            None => SubagentBody::Nothing,
            Some(subagent) => {
                if is_running && subagent.has_pending_call {
                    match subagent.pending_entry_ix {
                        Some(entry_ix) => SubagentBody::PendingCall {
                            entry_ix,
                            is_dashed: is_failed,
                        },
                        None => SubagentBody::Nothing,
                    }
                } else if is_expanded {
                    SubagentBody::Preview {
                        entries: render_subagent_expanded_content(
                            tool_call,
                            subagent.thread.entries.len(),
                        ),
                        is_dashed: tool_call.status.is_ended_badly(),
                        error: subagent_error_message(tool_call),
                        toggle_is_dashed: is_failed,
                    }
                } else {
                    SubagentBody::Nothing
                }
            },
        };
        SubagentCard {
            icon,
            badge: render_persona_badge(persona),
            title,
            changes,
            is_dashed: ended_badly,
            has_header_background: !ended_badly,
            tooltip_meta,
            disclosure,
            has_stop_button: is_running && subagent.is_some(),
            body,
        }
    }

    /// Expands or collapses the card of a subagent; says whether it is expanded then.
    pub fn toggle_subagent_card(&mut self, id: &ToolCallId) -> (expanded: bool)
        ensures
            *final(self) == (ThreadView {
                expanded_tool_calls: final(self).expanded_tool_calls,
                ..*old(self)
            }),
            expanded == !old(self).expanded_tool_calls@.contains(id.key()),
            final(self).expanded_tool_calls@ == (if expanded {
                old(self).expanded_tool_calls@.insert(id.key())
            } else {
                old(self).expanded_tool_calls@.remove(id.key())
            }),
    {
        let expanded = !self.expanded_tool_calls.contains(id);
        self.set_tool_call_expanded(id, expanded);
        expanded
    }

    /// A call as it is drawn. `subagent` is the thread of the subagent that the call has
    /// spawned.
    pub fn render_any_tool_call(
        &self,
        entry_ix: usize,
        tool_call: &ToolCall,
        layout: ToolCallLayout,
        subagent: &Option<SubagentThread>,
        context: &CardContext,
    ) -> (r: AnyToolCall)
        requires
            tool_call::has_countable_lines(*tool_call),
            has_room_behind(*tool_call),
        ensures
            any_tool_call_shows(r, *self, *tool_call, entry_ix, layout, *subagent, *context),
    {
        if tool_call.is_subagent {
            AnyToolCall::Subagent(self.render_subagent_card(tool_call, subagent))
        } else if tool_call.has_terminal() {
            let mut cards: Vec<TerminalCard> = Vec::new();
            let mut i: usize = 0;
            while i < tool_call.content.len()
                invariant
                    i <= tool_call.content@.len(),
                    tool_call::has_countable_lines(*tool_call),
                    cards@.len() == terminals(tool_call.content@.take(i as int)).len(),
                    forall|j: int|
                        #![trigger cards@[j]]
                        0 <= j < cards@.len() ==> terminal_card::terminal_card_shows(
                            cards@[j],
                            *self,
                            terminals(tool_call.content@.take(i as int))[j],
                            *tool_call,
                            entry_ix,
                            layout,
                            *context,
                        ),
                decreases tool_call.content@.len() - i,
            {
                assert(tool_call.content@.take(i + 1).drop_last() == tool_call.content@.take(
                    i as int,
                ));
                assert(tool_call::is_countable(tool_call.content@[i as int]));
                if let ToolCallContent::Terminal(terminal) = &tool_call.content[i] {
                    cards.push(
                        self.render_terminal_tool_call(
                            entry_ix,
                            terminal,
                            tool_call,
                            layout,
                            context,
                        ),
                    );
                }
                i = i + 1;
            }
            assert(tool_call.content@.take(i as int) == tool_call.content@);
            AnyToolCall::Terminals(cards)
        } else {
            AnyToolCall::Call(self.render_tool_call(entry_ix, tool_call, layout, context))
        }
    }

    /// Whether the call of the parent thread that has spawned this subagent ended badly.
    pub fn is_subagent_canceled_or_failed(&self, spawning_call: Option<&ToolCall>) -> (r: bool)
        ensures
            r == (self.parent_session_id is Some && (spawning_call matches Some(call)
                && call.status.ended_badly())),
    {
        if self.parent_session_id.is_none() {
            return false;
        }
        match spawning_call {
            Some(call) => call.status.is_ended_badly(),
            None => false,
        }
    }

    /// The bar above the thread of a subagent. A root thread has none.
    pub fn render_subagent_titlebar(&self, thread: &AcpThread, spawning_call: Option<&ToolCall>) -> (
    r: Option<SubagentTitlebar>)
        ensures
            r is Some <==> self.parent_session_id is Some && thread.parent_session_id is Some,
            r matches Some(bar) ==> titlebar_shows(
                bar,
                *thread,
                spawning_call matches Some(call) && call.status.ended_badly(),
            ),
    {
        if self.parent_session_id.is_none() {
            return None;
        }
        let parent_session_id = match &thread.parent_session_id {
            Some(id) => id.clone(),
            None => {
                return None;
            },
        };
        let is_done = thread.status == ThreadStatus::Idle;
        let is_canceled_or_failed = self.is_subagent_canceled_or_failed(spawning_call);
        let icon = if !is_done {
            None
        } else if is_canceled_or_failed {
            Some((IconName::Close, Color::Error))
        } else {
            Some((IconName::Check, Color::Success))
        };
        Some(
            SubagentTitlebar {
                is_dashed: is_done && is_canceled_or_failed,
                badge: render_persona_badge(thread.persona),
                icon,
                has_stop_button: !is_done,
                parent_session_id,
            },
        )
    }
}

/// A subagent with a persona has a badge with the name of the persona and a look of its own; the
/// general one goes by the word for any subagent. Without a persona there is no badge.
pub proof fn badges_name_the_persona(badge: Option<PersonaBadge>, persona: Option<AgentPersona>)
    requires
        badge_shows(badge, persona),
    ensures
        badge is Some <==> persona is Some,
        badge matches Some(shown) ==> {
            &&& shown.label is Subagent <==> persona == Some(AgentPersona::General)
            &&& shown.label matches BadgeLabel::NameOf(named) ==> persona == Some(named)
            &&& shown.icon == IconName::ToolPencil <==> persona == Some(AgentPersona::Implementer)
            &&& shown.icon == IconName::Eye <==> persona == Some(AgentPersona::Reviewer)
            &&& shown.icon == IconName::ToolSearch <==> persona == Some(AgentPersona::Researcher)
            &&& shown.icon == IconName::Folder <==> persona == Some(AgentPersona::Explorer)
            &&& shown.icon == IconName::AiZed <==> persona == Some(AgentPersona::General)
            &&& shown.icon == IconName::ListTodo <==> persona == Some(AgentPersona::Plan)
            &&& shown.icon == IconName::Notepad <==> persona == Some(AgentPersona::Architect)
            &&& shown.icon == IconName::CheckDouble <==> persona == Some(AgentPersona::Verifier)
            &&& shown.color == Color::Success <==> persona == Some(AgentPersona::Implementer)
                || persona == Some(AgentPersona::Verifier)
            &&& shown.color == Color::Accent <==> persona == Some(AgentPersona::Reviewer) || persona
                == Some(AgentPersona::Plan)
            &&& shown.color == Color::Info <==> persona == Some(AgentPersona::Researcher) || persona
                == Some(AgentPersona::Architect)
            &&& shown.color == Color::Muted <==> persona == Some(AgentPersona::Explorer) || persona
                == Some(AgentPersona::General)
        },
{
    if let Some(shown) = persona {
        match shown {
            AgentPersona::General => {},
            AgentPersona::Implementer => {},
            AgentPersona::Reviewer => {},
            AgentPersona::Researcher => {},
            AgentPersona::Explorer => {},
            AgentPersona::Plan => {},
            AgentPersona::Architect => {},
            AgentPersona::Verifier => {},
        }
    }
}

/// The words on the badges.
pub proof fn badges_have_their_words(review_name: Seq<char>)
    ensures
        badge_word(BadgeLabel::Subagent, review_name) == "Subagent"@,
        badge_word(BadgeLabel::NameOf(AgentPersona::Implementer), review_name) == "Implementer"@,
        badge_word(BadgeLabel::NameOf(AgentPersona::Reviewer), review_name) == review_name,
        badge_word(BadgeLabel::NameOf(AgentPersona::Researcher), review_name) == "Researcher"@,
        badge_word(BadgeLabel::NameOf(AgentPersona::Explorer), review_name) == "Explorer"@,
        badge_word(BadgeLabel::NameOf(AgentPersona::Plan), review_name) == "Plan"@,
        badge_word(BadgeLabel::NameOf(AgentPersona::Architect), review_name) == "Architect"@,
        badge_word(BadgeLabel::NameOf(AgentPersona::Verifier), review_name) == "Verifier"@,
        badge_word(BadgeLabel::NameOf(AgentPersona::General), review_name) == "General"@,
{
}

/// A subagent runs until its call is over, also while it waits for an answer. It was canceled
/// where its call was, or where its output says so in exactly these words, and failed where its
/// call failed or was rejected.
pub proof fn subagents_run_fail_or_are_canceled(call: ToolCall, i: int)
    ensures
        is_running(call) <==> call.status is Pending || call.status is InProgress || call.status
            is WaitingForConfirmation,
        is_failed(call) <==> call.status is Failed || call.status is Rejected,
        call.status is Canceled ==> is_cancelled(call),
        0 <= i < call.content@.len() && (call.content@[i] matches ToolCallContent::ContentBlock(
            ContentBlock::Markdown { source },
        ) && source@ == "User canceled"@) ==> is_cancelled(call),
        is_cancelled(call) && !(call.status is Canceled) ==> exists|j: int|
            0 <= j < call.content@.len() && (#[trigger] call.content@[j] matches
                ToolCallContent::ContentBlock(ContentBlock::Markdown { source }) && source@
                == "User canceled"@),
        call.content@.len() == 0 && !(call.status is Canceled) ==> !is_cancelled(call),
{
    if 0 <= i < call.content@.len() && says_canceled(call.content@[i]) {
        assert(is_cancelled(call));
    }
    if is_cancelled(call) && !(call.status is Canceled) {
        let j = choose|j: int|
            0 <= j < call.content@.len() && says_canceled(#[trigger] call.content@[j]);
        assert(call.content@[j] matches ToolCallContent::ContentBlock(
            ContentBlock::Markdown { source },
        ) && source@ == "User canceled"@);
    }
}

/// The title of a card is that of the thread of the subagent, else the label of the call, else
/// what became of the subagent.
pub proof fn cards_are_titled_by_thread_or_call(call: ToolCall, subagent: Option<SubagentThread>)
    ensures
        subagent is Some && subagent->0.thread.title is Some && subagent->0.thread.title->0@.len()
            > 0 ==> card_title(call, subagent) == subagent->0.thread.title->0@,
        (subagent is None || subagent->0.thread.title is None || subagent->0.thread.title->0@.len()
            == 0) ==> {
            &&& call.label@.len() > 0 ==> card_title(call, subagent) == call.label@
            &&& call.label@.len() == 0 && is_cancelled(call) ==> card_title(call, subagent)
                == "Subagent Canceled"@
            &&& call.label@.len() == 0 && !is_cancelled(call) && (call.status is Failed
                || call.status is Rejected) ==> card_title(call, subagent) == "Subagent Failed"@
            &&& call.label@.len() == 0 && !is_cancelled(call) && !(call.status is Failed)
                && !(call.status is Rejected) ==> card_title(call, subagent) == "Spawning Agent…"@
        },
        has_no_title_or_ended_badly(call, subagent) <==> call.status is Failed || call.status
            is Rejected || is_cancelled(call) || (call.label@.len() == 0 && !(subagent is Some
            && subagent->0.thread.title is Some && subagent->0.thread.title->0@.len() > 0)),
{
}

/// A running subagent spins; one that is over shows whether it was canceled, failed or is done.
pub proof fn icons_show_what_became_of_the_subagent(icon: SubagentIcon, call: ToolCall)
    requires
        icon_shows(icon, call),
    ensures
        icon.icon is Spinner <==> is_running(call),
        !is_running(call) && is_cancelled(call) ==> icon.icon == StatusIcon::Icon(
            IconName::Circle,
            Color::DisabledIcon,
        ) && icon.tooltip is Some && icon.tooltip->0@ == "Subagent Cancelled"@,
        !is_cancelled(call) && (call.status is Failed || call.status is Rejected) ==> icon.icon
            == StatusIcon::Icon(IconName::Close, Color::Error) && icon.tooltip is Some
            && icon.tooltip->0@ == "Subagent Failed"@,
        call.status is Completed && !is_cancelled(call) ==> icon.icon == StatusIcon::Icon(
            IconName::Check,
            Color::Success,
        ) && icon.tooltip is None,
{
}

/// The changes of a subagent are shown where there are any: the files are counted, one of them
/// by its own form, and the lines are handed on.
pub proof fn changes_count_the_files(
    changes: Option<SubagentChanges>,
    subagent: Option<SubagentThread>,
)
    requires
        changes_show(changes, subagent),
    ensures
        changes is Some <==> subagent is Some && subagent->0.files_changed != 0,
        changes matches Some(shown) ==> {
            &&& shown.lines_added == subagent->0.lines_added
            &&& shown.lines_removed == subagent->0.lines_removed
            &&& subagent->0.files_changed == 1 ==> shown.label@ == "- "@ + text::decimal(1) + " "@
                + "file"@ + " changed"@
            &&& subagent->0.files_changed != 1 ==> shown.label@ == "- "@ + text::decimal(
                subagent->0.files_changed as nat,
            ) + " "@ + "files"@ + " changed"@
        },
{
}

/// The error of a call is the first text among its output that says something other than that
/// the user canceled.
pub proof fn the_first_telling_text_is_the_error(
    first: Seq<ToolCallContent>,
    second: Seq<ToolCallContent>,
    source: String,
)
    ensures
        first_error(first + second) == (match first_error(first) {
            Some(message) => Some(message),
            None => first_error(second),
        }),
        ({
            let text = seq![ToolCallContent::ContentBlock(ContentBlock::Markdown { source })];
            &&& source@.len() > 0 && source@ != "User canceled"@ ==> first_error(text) == Some(
                source@,
            )
            &&& source@.len() == 0 || source@ == "User canceled"@ ==> first_error(text) is None
        }),
        second.len() == 1 && !(second[0] matches ToolCallContent::ContentBlock(
            ContentBlock::Markdown { .. },
        )) ==> first_error(second) is None,
    decreases second.len(),
{
    reveal_with_fuel(first_error, 3);
    let text = seq![ToolCallContent::ContentBlock(ContentBlock::Markdown { source })];
    assert(text.drop_last() =~= seq![]);
    if second.len() > 0 {
        the_first_telling_text_is_the_error(first, second.drop_last(), source);
        assert((first + second).drop_last() =~= first + second.drop_last());
        assert((first + second).last() == second.last());
        if second.len() == 1 {
            assert(second.drop_last() =~= seq![]);
        }
    } else {
        assert(first + second =~= first);
    }
}

/// The preview takes the last entries of those that the call is about, at most eight of them, and
/// none from before the call.
pub proof fn previews_take_the_last_entries(
    call: ToolCall,
    info: model::SubagentSessionInfo,
    total_entries: nat,
)
    requires
        call.subagent_session_info == Some(info),
        info.message_start_index <= total_entries,
        info.message_end_index matches Some(last) ==> info.message_start_index <= last + 1,
    ensures
        ({
            let (start, end) = preview_range(call, total_entries);
            &&& info.message_start_index <= start <= end <= total_entries
            &&& end - start <= 8
            &&& start > info.message_start_index ==> end - start == 8
            &&& info.message_end_index is None ==> end == total_entries
            &&& info.message_end_index matches Some(last) ==> (last + 1 <= total_entries ==> end
                == last + 1) && (last + 1 > total_entries ==> end == total_entries)
        }),
{
}

/// The card of a subagent shows what the subagent does: while it waits for an answer, that call;
/// while it is expanded, its last entries and its error. A running one can be stopped.
pub proof fn cards_show_what_the_subagent_does(
    card: SubagentCard,
    view: ThreadView,
    call: ToolCall,
    subagent: Option<SubagentThread>,
)
    requires
        subagent_card_shows(card, view, call, subagent),
    ensures
        card.title@ == card_title(call, subagent),
        card.badge is Some <==> call.subagent_session_info is Some
            && call.subagent_session_info->0.persona is Some,
        card.is_dashed <==> !card.has_header_background,
        card.is_dashed <==> has_no_title_or_ended_badly(call, subagent),
        card.has_stop_button <==> subagent is Some && is_running(call),
        card.disclosure is Some <==> subagent is Some && !subagent->0.has_pending_call
            && subagent->0.thread.entries@.len() > 0,
        card.disclosure == Some(IconName::ChevronUp) ==> view.expanded_tool_calls@.contains(
            call.id.value@,
        ),
        card.disclosure == Some(IconName::ChevronDown) ==> !view.expanded_tool_calls@.contains(
            call.id.value@,
        ),
        card.disclosure is Some ==> card.disclosure->0 == IconName::ChevronUp || card.disclosure->0
            == IconName::ChevronDown,
        card.tooltip_meta is Some <==> !card.is_dashed && !(subagent is Some
            && subagent->0.has_pending_call),
        card.tooltip_meta matches Some(note) ==> note@ == (if view.expanded_tool_calls@.contains(
            call.id.value@,
        ) {
            "Click to Collapse"@
        } else {
            "Click to Preview"@
        }),
        subagent is None ==> card.body is Nothing,
        card.body is PendingCall <==> subagent is Some && is_running(call)
            && subagent->0.has_pending_call && subagent->0.pending_entry_ix is Some,
        card.body matches SubagentBody::PendingCall { entry_ix, .. } ==> Some(entry_ix)
            == subagent->0.pending_entry_ix,
        card.body is Preview <==> subagent is Some && !(is_running(call)
            && subagent->0.has_pending_call) && view.expanded_tool_calls@.contains(call.id.value@),
        card.body matches SubagentBody::Preview { entries, is_dashed, error, toggle_is_dashed } ==> {
            &&& entries.start <= entries.end <= subagent->0.thread.entries@.len()
            &&& entries.end - entries.start <= 8
            &&& error is Some ==> call.status is Failed
            &&& call.status is Failed ==> (error is Some <==> first_error(call.content@) is Some)
            &&& error is Some ==> Some(error->0@) == first_error(call.content@)
            &&& is_dashed <==> call.status is Failed || call.status is Rejected || call.status
                is Canceled
            &&& toggle_is_dashed <==> call.status is Failed || call.status is Rejected
        },
        (card.changes is Some <==> subagent is Some && subagent->0.files_changed > 0),
{
    if let Some(thread) = subagent {
        preview_is_short_and_within_the_thread(call, thread.thread.entries@.len());
    }
}

/// The terminals of a call are taken from its output one by one.
pub proof fn terminals_come_one_by_one(
    first: Seq<ToolCallContent>,
    second: Seq<ToolCallContent>,
    terminal: model::Terminal,
    other: ToolCallContent,
)
    requires
        !(other is Terminal),
    ensures
        terminals(first + second) == terminals(first) + terminals(second),
        terminals(seq![ToolCallContent::Terminal(terminal)]) == seq![terminal],
        terminals(seq![other]).len() == 0,
    decreases second.len(),
{
    reveal_with_fuel(terminals, 3);
    assert(seq![ToolCallContent::Terminal(terminal)].drop_last() =~= seq![]);
    assert(terminals(seq![ToolCallContent::Terminal(terminal)]) =~= seq![terminal]);
    assert(seq![other].drop_last() =~= seq![]);
    if second.len() > 0 {
        terminals_come_one_by_one(first, second.drop_last(), terminal, other);
        assert((first + second).drop_last() =~= first + second.drop_last());
        assert((first + second).last() == second.last());
        assert(terminals(first + second) =~= terminals(first) + terminals(second));
    } else {
        assert(first + second =~= first);
        assert(terminals(first) + terminals(second) =~= terminals(first));
    }
}

/// A call is drawn as the card of its subagent, as the cards of its terminals, or as its own, and
/// a call that waits always asks the user.
pub proof fn calls_are_drawn_as_what_they_run(
    shown: AnyToolCall,
    view: ThreadView,
    call: ToolCall,
    entry_ix: usize,
    layout: ToolCallLayout,
    subagent: Option<SubagentThread>,
    context: CardContext,
    i: int,
)
    requires
        any_tool_call_shows(shown, view, call, entry_ix, layout, subagent, context),
    ensures
        shown is Subagent <==> call.is_subagent,
        shown is Terminals <==> !call.is_subagent && exists|j: int|
            0 <= j < call.content@.len() && (#[trigger] call.content@[j]) is Terminal,
        shown matches AnyToolCall::Terminals(cards) ==> cards@.len() == terminals(
            call.content@,
        ).len() && (0 <= i < cards@.len() ==> cards@[i].header_text@ == call.label@ && (
        cards@[i].confirmation is Some <==> call.status is WaitingForConfirmation)),
        shown matches AnyToolCall::Call(card) ==> (call.status is WaitingForConfirmation ==> (
        card.output matches Some(tool_call::ToolCallOutput::Confirmation { .. }))),
{
    if let AnyToolCall::Terminals(cards) = shown {
        if 0 <= i < cards@.len() {
            assert(terminal_card::terminal_card_shows(
                cards@[i],
                view,
                terminals(call.content@)[i],
                call,
                entry_ix,
                layout,
                context,
            ));
        }
    }
}

/// The bar above a subagent leads back to its parent. While the subagent works it can be stopped;
/// after that it shows how the subagent ended.
pub proof fn the_bar_shows_how_the_subagent_ended(
    bar: SubagentTitlebar,
    thread: AcpThread,
    is_canceled_or_failed: bool,
)
    requires
        titlebar_shows(bar, thread, is_canceled_or_failed),
    ensures
        thread.parent_session_id is Some && bar.parent_session_id@ == thread.parent_session_id->0@,
        bar.has_stop_button <==> thread.status == ThreadStatus::Generating,
        bar.icon is None <==> thread.status == ThreadStatus::Generating,
        thread.status == ThreadStatus::Idle && is_canceled_or_failed ==> bar.icon == Some(
            (IconName::Close, Color::Error),
        ) && bar.is_dashed,
        thread.status == ThreadStatus::Idle && !is_canceled_or_failed ==> bar.icon == Some(
            (IconName::Check, Color::Success),
        ) && !bar.is_dashed,
        thread.status == ThreadStatus::Generating ==> !bar.is_dashed,
        bar.badge is Some <==> thread.persona is Some,
{
}

/// The card of a call shows the call itself, in the layout that it is drawn in.
pub proof fn cards_show_the_call_in_its_layout(
    shown: AnyToolCall,
    view: ThreadView,
    call: ToolCall,
    entry_ix: usize,
    layout: ToolCallLayout,
    subagent: Option<SubagentThread>,
    context: CardContext,
    i: int,
)
    requires
        any_tool_call_shows(shown, view, call, entry_ix, layout, subagent, context),
    ensures
        match shown {
            AnyToolCall::Subagent(card) => subagent_card_shows(card, view, call, subagent)
                && badge_shows(
                card.badge,
                match call.subagent_session_info {
                    Some(info) => info.persona,
                    None => None,
                },
            ) && icon_shows(card.icon, call) && changes_show(card.changes, subagent),
            AnyToolCall::Terminals(cards) => 0 <= i < cards@.len() ==> (cards@[i].has_card_border
                <==> layout == ToolCallLayout::Standalone) && cards@[i].header_id@
                == "terminal-tool-header-"@ + text::decimal(
                terminals(call.content@)[i].entity_id as nat,
            ),
            AnyToolCall::Call(card) => tool_call::tool_call_shows(
                card,
                view,
                call,
                entry_ix,
                layout,
                context,
            ),
        },
{
    if let AnyToolCall::Terminals(cards) = shown {
        if 0 <= i < cards@.len() {
            assert(terminal_card::terminal_card_shows(
                cards@[i],
                view,
                terminals(call.content@)[i],
                call,
                entry_ix,
                layout,
                context,
            ));
        }
    }
}

} // verus!
