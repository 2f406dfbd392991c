//! The bar above the message editor: what waits for the user, what the agent has done, and
//! what is queued.

use crate::edits::{EditedBuffer, EditedFileRow, EditsSummary};
use crate::edits;
use crate::entry;
use crate::model::{
    AcpThread, AgentThreadEntry, ApprovalRisk, Color, EntryContent, IconName,
};
use crate::model;
use crate::queue::QueueEntry;
use crate::queue;
use crate::subagent::{AnyToolCall, PersonaBadge, SubagentThread};
use crate::subagent;
use crate::terminal_card::{CardContext, ToolCallLayout};
use crate::terminal_card;
use crate::text;
use crate::thread_view::ThreadView;
use crate::thread_view;
use crate::todos_surface::{TodosContext, TodosSurface};
use crate::todos_surface;
use crate::zed_todos;
use vstd::prelude::*;
use vstd::string::*;

verus! {

/// A subagent that the agent has spawned.
pub struct SubagentItem {
    pub id: String,
    pub group: String,
    pub badge: Option<PersonaBadge>,
    pub label: String,
    pub risk_label: &'static str,
    pub risk_color: Color,
    /// The entry that a click scrolls to.
    pub entry_ix: usize,
    pub has_bottom_border: bool,
}

/// The subagents that the agent has spawned.
pub struct SubagentsList {
    pub count: String,
    pub items: Vec<SubagentItem>,
}

/// The session of the subagent that the entry's call has spawned.
pub open spec fn spawned_session(entry: AgentThreadEntry) -> Option<Seq<char>> {
    match entry.content {
        EntryContent::ToolCall(call) => match call.subagent_session_info {
            Some(info) => Some(info.session_id@),
            None => None,
        },
        _ => None,
    }
}

/// Whether the entry spawned a subagent and no later entry spawned the same one.
pub open spec fn is_latest_spawn(entries: Seq<AgentThreadEntry>, i: int) -> bool {
    &&& spawned_session(entries[i]) is Some
    &&& forall|j: int|
        i < j < entries.len() ==> spawned_session(#[trigger] entries[j]) != spawned_session(
            entries[i],
        )
}

/// The entries among the first `n` that are the latest to spawn their subagent.
pub open spec fn latest_spawns(entries: Seq<AgentThreadEntry>, n: int) -> Seq<int>
    decreases n,
{
    if n <= 0 {
        seq![]
    } else if is_latest_spawn(entries, n - 1) {
        latest_spawns(entries, n - 1).push(n - 1)
    } else {
        latest_spawns(entries, n - 1)
    }
}

/// What is shown of a spawned subagent.
pub open spec fn subagent_item_shows(
    item: SubagentItem,
    entries: Seq<AgentThreadEntry>,
    entry_ix: int,
    is_last: bool,
    risk: ApprovalRisk,
) -> bool {
    entries[entry_ix].content matches EntryContent::ToolCall(call)
        && call.subagent_session_info matches Some(info) && {
        &&& item.id@ == "subagent-permission-"@ + text::decimal(entry_ix as nat)
        &&& item.group@ == "group-"@ + text::decimal(entry_ix as nat)
        &&& subagent::badge_shows(item.badge, info.persona)
        &&& item.label@ == (if call.label@.len() == 0 {
            "Subagent"@
        } else {
            call.label@
        })
        &&& item.risk_label@ == risk.word()
        &&& item.risk_color == terminal_card::card_risk_color(risk)
        &&& item.entry_ix == entry_ix
        &&& item.has_bottom_border == !is_last
    }
}

/// What the list of subagents shows: each spawned subagent once, by the last call that spawned
/// it. Without subagents there is no list.
pub open spec fn subagents_show(
    list: Option<SubagentsList>,
    entries: Seq<AgentThreadEntry>,
    risk: ApprovalRisk,
) -> bool {
    let spawns = latest_spawns(entries, entries.len() as int);
    &&& list is Some <==> spawns.len() > 0
    &&& list matches Some(list) ==> {
        &&& list.count@ == text::decimal(spawns.len())
        &&& list.items@.len() == spawns.len()
        &&& forall|i: int|
            #![trigger list.items@[i]]
            0 <= i < spawns.len() ==> subagent_item_shows(
                list.items@[i],
                entries,
                spawns[i],
                i == spawns.len() - 1,
                risk,
            )
    }
}

fn spawned<'a>(entry: &'a AgentThreadEntry) -> (r: Option<&'a String>)
    ensures
        r is Some <==> spawned_session(*entry) is Some,
        r matches Some(session) ==> spawned_session(*entry) == Some(session@),
{
    match &entry.content {
        EntryContent::ToolCall(call) => match &call.subagent_session_info {
            Some(info) => Some(&info.session_id),
            None => None,
        },
        _ => None,
    }
}

fn check_latest_spawn(entries: &Vec<AgentThreadEntry>, i: usize) -> (r: bool)
    requires
        i < entries@.len(),
    ensures
        r == is_latest_spawn(entries@, i as int),
{
    let total = entries.len();
    let session = match spawned(&entries[i]) {
        Some(session) => session,
        None => {
            return false;
        },
    };
    let mut j: usize = i + 1;
    while j < total
        invariant
            total == entries@.len(),
            i < j <= entries@.len(),
            spawned_session(entries@[i as int]) == Some(session@),
            forall|k: int|
                i < k < j ==> spawned_session(#[trigger] entries@[k]) != spawned_session(
                    entries@[i as int],
                ),
        decreases entries@.len() - j,
    {
        if let Some(other) = spawned(&entries[j]) {
            if text::same_text(other.as_str(), session.as_str()) {
                assert(spawned_session(entries@[j as int]) == spawned_session(entries@[i as int]));
                return false;
            }
        }
        j = j + 1;
    }
    true
}

proof fn lemma_latest_spawns(entries: Seq<AgentThreadEntry>, n: int)
    requires
        0 <= n <= entries.len(),
    ensures
        forall|i: int|
            #![trigger latest_spawns(entries, n)[i]]
            0 <= i < latest_spawns(entries, n).len() ==> 0 <= latest_spawns(entries, n)[i] < n
                && is_latest_spawn(entries, latest_spawns(entries, n)[i]),
    decreases n,
{
    if n > 0 {
        lemma_latest_spawns(entries, n - 1);
        let before = latest_spawns(entries, n - 1);
        let after = latest_spawns(entries, n);
        assert forall|i: int|
            #![trigger after[i]]
            0 <= i < after.len() implies 0 <= after[i] < n && is_latest_spawn(
            entries,
            after[i],
        ) by {
            if i < before.len() {
                assert(after[i] == before[i]);
            }
        }
    }
}

proof fn lemma_latest_spawns_are_listed(entries: Seq<AgentThreadEntry>, n: int, i: int)
    requires
        0 <= i < n <= entries.len(),
        is_latest_spawn(entries, i),
    ensures
        latest_spawns(entries, n).contains(i),
    decreases n,
{
    let before = latest_spawns(entries, n - 1);
    if i == n - 1 {
        assert(latest_spawns(entries, n)[before.len() as int] == i);
    } else {
        lemma_latest_spawns_are_listed(entries, n - 1, i);
        let k = choose|k: int| 0 <= k < before.len() && before[k] == i;
        assert(latest_spawns(entries, n)[k] == i);
    }
}

proof fn lemma_session_has_latest_spawn(entries: Seq<AgentThreadEntry>, i: int)
    requires
        0 <= i < entries.len(),
        spawned_session(entries[i]) is Some,
    ensures
        exists|j: int|
            i <= j < entries.len() && spawned_session(#[trigger] entries[j]) == spawned_session(
                entries[i],
            ) && is_latest_spawn(entries, j),
    decreases entries.len() - i,
{
    if is_latest_spawn(entries, i) {
        assert(spawned_session(entries[i]) == spawned_session(entries[i]));
    } else {
        let k = choose|k: int|
            i < k < entries.len() && spawned_session(#[trigger] entries[k]) == spawned_session(
                entries[i],
            );
        lemma_session_has_latest_spawn(entries, k);
    }
}

/// Every subagent that was spawned is in the list, and none is in it twice.
pub proof fn each_subagent_is_listed_once(entries: Seq<AgentThreadEntry>, i: int, j: int)
    requires
        0 <= i < entries.len(),
        0 <= j < entries.len(),
    ensures
        ({
            let spawns = latest_spawns(entries, entries.len() as int);
            &&& spawned_session(entries[i]) is Some ==> exists|k: int|
                0 <= k < spawns.len() && spawned_session(entries[#[trigger] spawns[k]])
                    == spawned_session(entries[i])
            &&& spawns.contains(i) && spawns.contains(j) && i != j ==> spawned_session(entries[i])
                != spawned_session(entries[j])
        }),
{
    let n = entries.len() as int;
    let spawns = latest_spawns(entries, n);
    lemma_latest_spawns(entries, n);
    if spawned_session(entries[i]) is Some {
        lemma_session_has_latest_spawn(entries, i);
        let k = choose|k: int|
            i <= k < entries.len() && spawned_session(#[trigger] entries[k]) == spawned_session(
                entries[i],
            ) && is_latest_spawn(entries, k);
        lemma_latest_spawns_are_listed(entries, n, k);
        let m = choose|m: int| 0 <= m < spawns.len() && spawns[m] == k;
        assert(spawned_session(entries[spawns[m]]) == spawned_session(entries[i]));
    }
    if spawns.contains(i) && spawns.contains(j) && i != j {
        let a = choose|a: int| 0 <= a < spawns.len() && spawns[a] == i;
        let b = choose|b: int| 0 <= b < spawns.len() && spawns[b] == j;
        assert(is_latest_spawn(entries, spawns[a]));
        assert(is_latest_spawn(entries, spawns[b]));
    }
}

/// The list of the subagents that the agent has spawned. `risk` is the risk of spawning one.
pub fn render_subagents_awaiting_permission(thread: &AcpThread, risk: ApprovalRisk) -> (r: Option<
    SubagentsList,
>)
    ensures
        subagents_show(r, thread.entries@, risk),
{
    let entries = &thread.entries;
    let ghost all = entries@.len() as int;
    let mut spawns: Vec<usize> = Vec::new();
    let mut i: usize = 0;
    while i < entries.len()
        invariant
            i <= entries@.len(),
            spawns@.len() == latest_spawns(entries@, i as int).len(),
            forall|k: int|
                0 <= k < spawns@.len() ==> (#[trigger] spawns@[k]) == latest_spawns(
                    entries@,
                    i as int,
                )[k],
        decreases entries@.len() - i,
    {
        if check_latest_spawn(entries, i) {
            spawns.push(i);
        }
        i = i + 1;
    }
    if spawns.len() == 0 {
        return None;
    }
    proof {
        lemma_latest_spawns(entries@, entries@.len() as int);
    }
    let ghost expected = latest_spawns(entries@, entries@.len() as int);
    let count = spawns.len();
    let risk_color = match risk {
        ApprovalRisk::ReadOnly => Color::Success,
        ApprovalRisk::PotentiallyDestructive => Color::Warning,
    };
    let mut items: Vec<SubagentItem> = Vec::new();
    let mut k: usize = 0;
    while k < count
        invariant
            k <= count == spawns@.len() == expected.len(),
            count > 0,
            entries == &thread.entries,
            risk_color == terminal_card::card_risk_color(risk),
            items@.len() == k,
            forall|m: int| 0 <= m < spawns@.len() ==> (#[trigger] spawns@[m]) == expected[m],
            forall|m: int|
                #![trigger expected[m]]
                0 <= m < expected.len() ==> 0 <= expected[m] < entries@.len() && is_latest_spawn(
                    entries@,
                    expected[m],
                ),
            forall|m: int|
                #![trigger items@[m]]
                0 <= m < k ==> subagent_item_shows(
                    items@[m],
                    entries@,
                    expected[m],
                    m == expected.len() - 1,
                    risk,
                ),
        decreases count - k,
    {
        let entry_ix = spawns[k];
        assert(entry_ix == expected[k as int]);
        assert(spawned_session(entries@[entry_ix as int]) is Some);
        if let EntryContent::ToolCall(call) = &entries[entry_ix].content {
            if let Some(info) = &call.subagent_session_info {
                let label = if call.label.as_str().is_empty() {
                    "Subagent".to_owned()
                } else {
                    call.label.clone()
                };
                items.push(
                    SubagentItem {
                        id: text::with_count("subagent-permission-", entry_ix),
                        group: text::with_count("group-", entry_ix),
                        badge: subagent::render_persona_badge(info.persona),
                        label,
                        risk_label: risk.label(),
                        risk_color,
                        entry_ix,
                        has_bottom_border: k != count - 1,
                    },
                );
            }
        }
        k = k + 1;
    }
    Some(SubagentsList { count: text::count(count), items })
}

/// The call of the main agent that the conversation waits for.
pub struct PendingPermission {
    /// The entry of the call, where the thread has it.
    pub entry_ix: Option<usize>,
    /// How many calls wait.
    pub pending_count: usize,
    /// Whether the entry is above or below what is visible; nothing where that is unknown.
    pub is_above_viewport: Option<bool>,
    pub is_below_viewport: Option<bool>,
}

/// The call of the main agent that waits for an answer, while its entry is out of sight.
pub struct AwaitingPermission {
    pub label: String,
    pub scroll_icon: IconName,
    pub entry_ix: usize,
    pub card: AnyToolCall,
}

/// Where the entry of a waiting call is, while it is out of sight.
pub open spec fn out_of_sight(pending: PendingPermission) -> Option<IconName> {
    match pending.is_above_viewport {
        None => None,
        Some(true) => Some(IconName::ArrowUp),
        Some(false) => if pending.is_below_viewport == Some(true) {
            Some(IconName::ArrowDown)
        } else {
            None
        },
    }
}

/// The entry of the call that is shown because it is out of sight.
pub open spec fn awaited_entry(
    view: ThreadView,
    thread: AcpThread,
    pending: Option<PendingPermission>,
) -> Option<usize> {
    match pending {
        Some(pending) => match pending.entry_ix {
            Some(entry_ix) => if view.parent_session_id is None && entry_ix < thread.entries@.len()
                && thread.entries@[entry_ix as int].content is ToolCall && out_of_sight(
                pending,
            ) is Some {
                Some(entry_ix)
            } else {
                None
            },
            None => None,
        },
        None => None,
    }
}

/// What is shown of the call of the main agent that waits for an answer.
pub open spec fn awaiting_shows(
    awaiting: Option<AwaitingPermission>,
    view: ThreadView,
    thread: AcpThread,
    pending: Option<PendingPermission>,
    subagent: Option<SubagentThread>,
    context: CardContext,
) -> bool {
    match (awaiting, awaited_entry(view, thread, pending), pending) {
        (Some(awaiting), Some(entry_ix), Some(pending)) => {
            &&& awaiting.label@ == (if pending.pending_count > 1 {
                zed_todos::counted("Awaiting Confirmation"@, pending.pending_count as nat)
            } else {
                "Awaiting Confirmation"@
            })
            &&& Some(awaiting.scroll_icon) == out_of_sight(pending)
            &&& awaiting.entry_ix == entry_ix
            &&& thread.entries@[entry_ix as int].content matches EntryContent::ToolCall(call)
                && subagent::any_tool_call_shows(
                awaiting.card,
                view,
                call,
                entry_ix,
                ToolCallLayout::Embedded,
                subagent,
                context,
            )
        },
        (None, None, _) => true,
        _ => false,
    }
}

/// What stands on top of the bar.
pub enum Awaiting {
    MainAgent(AwaitingPermission),
    Subagents(SubagentsList),
}

/// What the bar depends on besides the view and the thread.
pub struct ActivityContext<'a> {
    pub changed_buffers: &'a Vec<EditedBuffer>,
    /// The lines added and removed in all of them.
    pub stats: (u32, u32),
    pub pending: Option<PendingPermission>,
    /// The thread of the subagent that the pending call has spawned.
    pub subagent: Option<SubagentThread<'a>>,
    pub cards: CardContext<'a>,
    /// The risk of spawning a subagent.
    pub spawn_risk: ApprovalRisk,
    pub todos: TodosContext<'a>,
    /// For how many seconds the turn has made no progress, where it is stalled.
    pub turn_stalled_secs: Option<u64>,
    /// Which of the editors of queued messages has the focus.
    pub queue_editors_focused: &'a Vec<bool>,
    pub is_editor_empty: bool,
}

/// The bar above the message editor.
pub struct ActivityBar {
    pub awaiting: Option<Awaiting>,
    pub has_divider_below_awaiting: bool,
    pub todos: Option<TodosSurface>,
    pub has_divider_above_edits: bool,
    pub edits: Option<EditsSummary>,
    pub edited_files: Option<Vec<EditedFileRow>>,
    pub has_divider_above_queue: bool,
    pub queue: Option<String>,
    pub queue_entries: Option<Vec<QueueEntry>>,
    pub stalled: Option<StalledRow>,
}

/// The row for a turn that makes no progress.
pub struct StalledRow {
    pub chip: &'static str,
    pub chip_color: Color,
    pub label: String,
    pub label_color: Color,
    /// The button that cancels the generation.
    pub button_icon: IconName,
    pub button_tooltip: &'static str,
}

/// What the row for a turn that makes no progress shows.
pub open spec fn stalled_shows(row: Option<StalledRow>, secs: Option<u64>) -> bool {
    match (row, secs) {
        (Some(row), Some(secs)) => {
            &&& row.chip@ == "Agent stalled"@
            &&& row.chip_color == Color::Error
            &&& row.label@ == text::decimal(secs as nat) + "s no progress"@
            &&& row.label_color == Color::Muted
            &&& row.button_icon == IconName::Stop
            &&& row.button_tooltip@ == "Interrupt stalled turn"@
        },
        (None, None) => true,
        _ => false,
    }
}

fn render_stalled(secs: Option<u64>) -> (r: Option<StalledRow>)
    ensures
        stalled_shows(r, secs),
{
    match secs {
        Some(secs) => Some(
            StalledRow {
                chip: "Agent stalled",
                chip_color: Color::Error,
                label: text::concat2(text::number(secs).as_str(), "s no progress"),
                label_color: Color::Muted,
                button_icon: IconName::Stop,
                button_tooltip: "Interrupt stalled turn",
            },
        ),
        None => None,
    }
}

/// Whether an entry waits for an answer.
pub open spec fn has_approvals(thread: AcpThread) -> bool {
    exists|i: int|
        0 <= i < thread.entries@.len() && model::is_waiting_call(#[trigger] thread.entries@[i])
}

/// Whether an entry runs in the background.
pub open spec fn has_background_tasks(thread: AcpThread) -> bool {
    exists|i: int|
        0 <= i < thread.entries@.len() && model::is_monitor_call(#[trigger] thread.entries@[i])
}

/// Whether the agent has spawned subagents.
pub open spec fn has_subagents(thread: AcpThread) -> bool {
    latest_spawns(thread.entries@, thread.entries@.len() as int).len() > 0
}

/// Whether the bar has anything to show.
pub open spec fn has_activity(view: ThreadView, thread: AcpThread, context: ActivityContext) -> bool {
    ||| context.changed_buffers@.len() > 0
    ||| thread.plan.entries@.len() > 0
    ||| view.local_queued_messages@.len() > 0
    ||| has_subagents(thread)
    ||| has_background_tasks(thread)
    ||| has_approvals(thread)
    ||| thread_view::is_grok(view.agent_id@, context.todos.native_is_grok_build_profile)
    ||| thread.has_outstanding_todos
    ||| context.turn_stalled_secs is Some
    ||| awaited_entry(view, thread, context.pending) is Some
}

/// What stands on top of the bar: the waiting call of the main agent, else the subagents.
pub open spec fn top_shows(
    awaiting: Option<Awaiting>,
    view: ThreadView,
    thread: AcpThread,
    context: ActivityContext,
) -> bool {
    match awaiting {
        Some(Awaiting::MainAgent(shown)) => awaiting_shows(
            Some(shown),
            view,
            thread,
            context.pending,
            context.subagent,
            context.cards,
        ),
        Some(Awaiting::Subagents(list)) => awaited_entry(view, thread, context.pending) is None
            && subagents_show(Some(list), thread.entries@, context.spawn_risk),
        None => awaited_entry(view, thread, context.pending) is None && !has_subagents(thread),
    }
}

/// What the bar above the message editor shows.
pub open spec fn activity_bar_shows(
    bar: ActivityBar,
    view: ThreadView,
    thread: AcpThread,
    context: ActivityContext,
) -> bool {
    let has_plan = thread.plan.entries@.len() > 0;
    let has_changes = context.changed_buffers@.len() > 0;
    let has_queue = view.local_queued_messages@.len() > 0;
    let has_work = has_background_tasks(thread) || has_approvals(thread);
    &&& top_shows(bar.awaiting, view, thread, context)
    &&& bar.has_divider_below_awaiting == (has_subagents(thread) && (has_plan || has_changes
        || has_queue || has_work))
    &&& bar.todos is Some <==> has_plan || has_work || thread_view::is_grok(
        view.agent_id@,
        context.todos.native_is_grok_build_profile,
    )
    &&& bar.todos matches Some(surface) ==> todos_surface::todos_surface_shows(
        surface,
        view,
        thread,
        context.todos,
    )
    &&& bar.has_divider_above_edits == (((has_plan || has_work) && has_changes) || (bar.awaiting
        is Some && (has_plan || has_changes || has_queue)))
    &&& bar.edits is Some <==> has_changes && thread.parent_session_id is None
    &&& bar.edits matches Some(summary) ==> edits::edits_summary_shows(
        summary,
        context.changed_buffers@.len(),
        view.edits_expanded,
        false,
        context.stats,
    )
    &&& bar.edited_files is Some <==> bar.edits is Some && view.edits_expanded
    &&& bar.edited_files matches Some(rows) ==> exists|order: Seq<usize>|
        #[trigger] edits::is_sorted_order(order, context.changed_buffers@) && edits::file_rows_show(
            rows@,
            order,
            context.changed_buffers@,
            false,
        )
    &&& bar.has_divider_above_queue == (has_queue && (has_plan || has_changes || has_work))
    &&& text::optional_view(bar.queue) == (if !has_queue {
        None
    } else if view.local_queued_messages@.len() == 1 {
        Some("1 Queued Message"@)
    } else {
        Some(text::decimal(view.local_queued_messages@.len()) + " Queued Messages"@)
    })
    &&& bar.queue_entries is Some <==> has_queue && view.queue_expanded
    &&& bar.queue_entries matches Some(rows) ==> rows@.len()
        == context.queue_editors_focused@.len() && forall|i: int|
        0 <= i < rows@.len() ==> queue::queue_entry_shows(
            #[trigger] rows@[i],
            view,
            i,
            context.queue_editors_focused@,
            context.is_editor_empty,
        )
    &&& stalled_shows(bar.stalled, context.turn_stalled_secs)
}

fn any_waiting(entries: &Vec<AgentThreadEntry>) -> (r: bool)
    ensures
        r == (exists|i: int|
            0 <= i < entries@.len() && model::is_waiting_call(#[trigger] entries@[i])),
{
    let mut i: usize = 0;
    while i < entries.len()
        invariant
            i <= entries@.len(),
            forall|j: int| 0 <= j < i ==> !model::is_waiting_call(#[trigger] entries@[j]),
        decreases entries@.len() - i,
    {
        if entries[i].is_waiting_for_confirmation() {
            return true;
        }
        i = i + 1;
    }
    false
}

fn any_monitor(entries: &Vec<AgentThreadEntry>) -> (r: bool)
    ensures
        r == (exists|i: int|
            0 <= i < entries@.len() && model::is_monitor_call(#[trigger] entries@[i])),
{
    let mut i: usize = 0;
    while i < entries.len()
        invariant
            i <= entries@.len(),
            forall|j: int| 0 <= j < i ==> !model::is_monitor_call(#[trigger] entries@[j]),
        decreases entries@.len() - i,
    {
        if entries[i].is_monitor() {
            return true;
        }
        i = i + 1;
    }
    false
}

/// Whether the entry that the conversation waits for can be drawn.
pub open spec fn pending_has_room(thread: AcpThread, pending: Option<PendingPermission>) -> bool {
    pending matches Some(pending) ==> pending.entry_ix matches Some(entry_ix) ==> (entry_ix
        < thread.entries@.len() ==> entry::has_room(thread.entries@[entry_ix as int]))
}

impl ThreadView {
    /// The call of the main agent that waits for an answer, while its entry is out of sight. A
    /// view of a subagent shows none.
    pub fn render_main_agent_awaiting_permission(
        &self,
        thread: &AcpThread,
        pending: &Option<PendingPermission>,
        subagent: &Option<SubagentThread>,
        context: &CardContext,
    ) -> (r: Option<AwaitingPermission>)
        requires
            pending_has_room(*thread, *pending),
        ensures
            awaiting_shows(r, *self, *thread, *pending, *subagent, *context),
    {
        if self.is_subagent() {
            return None;
        }
        let pending = match pending {
            Some(pending) => pending,
            None => {
                return None;
            },
        };
        let entry_ix = match pending.entry_ix {
            Some(entry_ix) => entry_ix,
            None => {
                return None;
            },
        };
        if entry_ix >= thread.entries.len() {
            return None;
        }
        let scroll_icon = match pending.is_above_viewport {
            Some(true) => IconName::ArrowUp,
            Some(false) => match pending.is_below_viewport {
                Some(true) => IconName::ArrowDown,
                _ => {
                    return None;
                },
            },
            None => {
                return None;
            },
        };
        match &thread.entries[entry_ix].content {
            EntryContent::ToolCall(call) => {
                let label = if pending.pending_count > 1 {
                    text::bracketed(
                        "Awaiting Confirmation",
                        text::count(pending.pending_count).as_str(),
                    )
                } else {
                    "Awaiting Confirmation".to_owned()
                };
                Some(
                    AwaitingPermission {
                        label,
                        scroll_icon,
                        entry_ix,
                        card: self.render_any_tool_call(
                            entry_ix,
                            call,
                            ToolCallLayout::Embedded,
                            subagent,
                            context,
                        ),
                    },
                )
            },
            _ => None,
        }
    }

    fn render_top(&self, thread: &AcpThread, context: &ActivityContext) -> (r: (
        Option<Awaiting>,
        bool,
    ))
        requires
            pending_has_room(*thread, context.pending),
        ensures
            top_shows(r.0, *self, *thread, *context),
            r.1 == has_subagents(*thread),
    {
        let main = self.render_main_agent_awaiting_permission(
            thread,
            &context.pending,
            &context.subagent,
            &context.cards,
        );
        let subagents = render_subagents_awaiting_permission(thread, context.spawn_risk);
        let has_subagents = subagents.is_some();
        let awaiting = match main {
            Some(main) => Some(Awaiting::MainAgent(main)),
            None => match subagents {
                Some(list) => Some(Awaiting::Subagents(list)),
                None => None,
            },
        };
        (awaiting, has_subagents)
    }

    /// The bar above the message editor. Without any activity there is none.
    pub fn render_activity_bar(&self, thread: &AcpThread, context: &ActivityContext) -> (r: Option<
        ActivityBar,
    >)
        requires
            pending_has_room(*thread, context.pending),
        ensures
            r is Some <==> has_activity(*self, *thread, *context),
            r matches Some(bar) ==> activity_bar_shows(bar, *self, *thread, *context),
    {
        let has_changes = context.changed_buffers.len() > 0;
        let has_plan = thread.plan.entries.len() > 0;
        let has_queue = self.has_queued_messages();
        let is_grok = self.is_grok_build_profile(context.todos.native_is_grok_build_profile);
        let (awaiting, has_subagents_awaiting) = self.render_top(thread, context);
        let has_awaiting = awaiting.is_some();
        let has_background_tasks = any_monitor(&thread.entries);
        let has_approvals = any_waiting(&thread.entries);
        let has_work = has_background_tasks || has_approvals;
        if !has_changes && !has_plan && !has_queue && !has_subagents_awaiting && !has_work
            && !is_grok && !self.has_outstanding_todos(thread)
            && context.turn_stalled_secs.is_none() && !has_awaiting {
            return None;
        }
        let todos = if has_plan || has_work || is_grok {
            Some(self.render_zed_todos_surface(thread, &context.todos))
        } else {
            None
        };
        let shows_edits = has_changes && thread.parent_session_id.is_none();
        let edits = if shows_edits {
            Some(
                edits::render_edits_summary(
                    context.changed_buffers.len(),
                    self.edits_expanded,
                    false,
                    context.stats,
                ),
            )
        } else {
            None
        };
        let edited_files = if shows_edits && self.edits_expanded {
            let (order, rows) = edits::render_edited_files(context.changed_buffers, false);
            assert(edits::is_sorted_order(order@, context.changed_buffers@));
            Some(rows)
        } else {
            None
        };
        let queue = if has_queue {
            Some(self.render_message_queue_summary())
        } else {
            None
        };
        let queue_entries = if has_queue && self.queue_expanded {
            Some(
                self.render_message_queue_entries(
                    context.queue_editors_focused,
                    context.is_editor_empty,
                ),
            )
        } else {
            None
        };
        let stalled = render_stalled(context.turn_stalled_secs);
        Some(
            ActivityBar {
                awaiting,
                has_divider_below_awaiting: has_subagents_awaiting && (has_plan || has_changes
                    || has_queue || has_work),
                todos,
                has_divider_above_edits: ((has_plan || has_work) && has_changes) || (has_awaiting
                    && (has_plan || has_changes || has_queue)),
                edits,
                edited_files,
                has_divider_above_queue: has_queue && (has_plan || has_changes || has_work),
                queue,
                queue_entries,
                stalled,
            },
        )
    }

    /// Shows or hides the queued messages.
    pub fn toggle_queue_expanded(&mut self)
        ensures
            *final(self) == (ThreadView {
                queue_expanded: !old(self).queue_expanded,
                ..*old(self)
            }),
    {
        self.queue_expanded = !self.queue_expanded;
    }
}

/// The bar of the build agent is always there, and so is the bar while a call waits for an
/// answer, a plan stands, or a turn is stalled.
pub proof fn the_bar_stays_while_there_is_work(
    view: ThreadView,
    thread: AcpThread,
    context: ActivityContext,
)
    ensures
        thread_view::is_grok(view.agent_id@, context.todos.native_is_grok_build_profile)
            ==> has_activity(view, thread, context),
        has_approvals(thread) ==> has_activity(view, thread, context),
        thread.plan.entries@.len() > 0 ==> has_activity(view, thread, context),
        context.turn_stalled_secs is Some ==> has_activity(view, thread, context),
{
}

/// The entry that spawned a subagent last is the one that stands for it. Entries that are no
/// calls, and calls that spawned nothing, stand for none.
pub proof fn subagents_are_found_by_their_last_call(
    entries: Seq<AgentThreadEntry>,
    i: int,
    j: int,
)
    requires
        0 <= i < entries.len(),
    ensures
        is_latest_spawn(entries, i) ==> entries[i].content is ToolCall
            && entries[i].content->ToolCall_0.subagent_session_info is Some,
        !(entries[i].content is ToolCall) ==> spawned_session(entries[i]) is None,
        entries[i].content is ToolCall ==> (match entries[i].content->ToolCall_0.subagent_session_info
        {
            Some(info) => spawned_session(entries[i]) == Some(info.session_id@),
            None => spawned_session(entries[i]) is None,
        }),
        i < j < entries.len() && spawned_session(entries[i]) is Some && spawned_session(entries[j])
            == spawned_session(entries[i]) ==> !is_latest_spawn(entries, i),
        spawned_session(entries[i]) is Some && i == entries.len() - 1 ==> is_latest_spawn(
            entries,
            i,
        ),
{
}

/// The list of subagents shows each with its role, its label and the risk of spawning one, and
/// leads to its call.
pub proof fn the_list_shows_each_subagent(
    list: Option<SubagentsList>,
    entries: Seq<AgentThreadEntry>,
    risk: ApprovalRisk,
    i: int,
)
    requires
        subagents_show(list, entries, risk),
    ensures
        list is None <==> latest_spawns(entries, entries.len() as int).len() == 0,
        list matches Some(shown) ==> {
            &&& shown.count@ == text::decimal(shown.items@.len())
            &&& 0 <= i < shown.items@.len() ==> {
                let item = shown.items@[i];
                &&& item.entry_ix == latest_spawns(entries, entries.len() as int)[i]
                &&& entries[item.entry_ix as int].content matches EntryContent::ToolCall(call) && {
                    &&& call.subagent_session_info is Some
                    &&& call.label@.len() > 0 ==> item.label@ == call.label@
                    &&& call.label@.len() == 0 ==> item.label@ == "Subagent"@
                    &&& item.badge is Some <==> call.subagent_session_info->0.persona is Some
                }
                &&& item.risk_label@ == risk.word()
                &&& item.risk_color == Color::Warning <==> risk
                    == ApprovalRisk::PotentiallyDestructive
                &&& item.has_bottom_border <==> i + 1 < shown.items@.len()
                &&& item.id@ == "subagent-permission-"@ + text::decimal(item.entry_ix as nat)
            }
        },
{
    if let Some(shown) = list {
        if 0 <= i < shown.items@.len() {
            let spawns = latest_spawns(entries, entries.len() as int);
            assert(subagent_item_shows(
                shown.items@[i],
                entries,
                spawns[i],
                i == spawns.len() - 1,
                risk,
            ));
        }
    }
}

/// A call of the main agent that waits is brought up while its entry is out of sight, with the
/// way to it. A view of a subagent brings up none.
pub proof fn waiting_calls_out_of_sight_are_brought_up(
    awaiting: Option<AwaitingPermission>,
    view: ThreadView,
    thread: AcpThread,
    pending: Option<PendingPermission>,
    subagent: Option<SubagentThread>,
    context: CardContext,
)
    requires
        awaiting_shows(awaiting, view, thread, pending, subagent, context),
    ensures
        view.parent_session_id is Some ==> awaiting is None,
        pending is None || pending->0.entry_ix is None ==> awaiting is None,
        pending matches Some(waiting) ==> (waiting.entry_ix matches Some(entry_ix) ==> {
            &&& awaiting is Some <==> view.parent_session_id is None && entry_ix
                < thread.entries@.len() && thread.entries@[entry_ix as int].content is ToolCall && (
            waiting.is_above_viewport == Some(true) || (waiting.is_above_viewport == Some(false)
                && waiting.is_below_viewport == Some(true)))
            &&& awaiting matches Some(shown) ==> {
                &&& shown.entry_ix == entry_ix
                &&& shown.scroll_icon == IconName::ArrowUp <==> waiting.is_above_viewport == Some(
                    true,
                )
                &&& shown.scroll_icon == IconName::ArrowDown <==> waiting.is_above_viewport == Some(
                    false,
                )
                &&& waiting.pending_count <= 1 ==> shown.label@ == "Awaiting Confirmation"@
                &&& waiting.pending_count > 1 ==> shown.label@ == "Awaiting Confirmation"@ + " ("@
                    + text::decimal(waiting.pending_count as nat) + ")"@
            }
        }),
{
}

/// A turn that is stalled says for how long, and can be interrupted.
pub proof fn stalled_turns_say_so(row: Option<StalledRow>, secs: Option<u64>)
    requires
        stalled_shows(row, secs),
    ensures
        row is Some <==> secs is Some,
        row matches Some(shown) ==> shown.chip@ == "Agent stalled"@ && shown.chip_color
            == Color::Error && shown.label@ == text::decimal(secs->0 as nat) + "s no progress"@
            && shown.button_icon == IconName::Stop && shown.button_tooltip@
            == "Interrupt stalled turn"@,
{
}

/// Approvals and background tasks are found among the entries.
pub proof fn work_is_found_among_the_entries(thread: AcpThread, i: int)
    requires
        0 <= i < thread.entries@.len(),
    ensures
        thread.entries@[i].content is ToolCall && thread.entries@[i].content->ToolCall_0.status
            is WaitingForConfirmation ==> has_approvals(thread),
        thread.entries@[i].content is ToolCall && thread.entries@[i].content->ToolCall_0.is_monitor
            ==> has_background_tasks(thread),
        (forall|j: int|
            0 <= j < thread.entries@.len() ==> !((
            #[trigger] thread.entries@[j]).content is ToolCall)) ==> !has_approvals(thread)
            && !has_background_tasks(thread) && !has_subagents(thread),
        thread.entries@[i].content is ToolCall
            && thread.entries@[i].content->ToolCall_0.subagent_session_info is Some
            ==> has_subagents(thread),
        has_approvals(thread) <==> exists|j: int|
            0 <= j < thread.entries@.len() && (#[trigger] thread.entries@[j]).content is ToolCall
                && thread.entries@[j].content->ToolCall_0.status is WaitingForConfirmation,
        has_background_tasks(thread) <==> exists|j: int|
            0 <= j < thread.entries@.len() && (#[trigger] thread.entries@[j]).content is ToolCall
                && thread.entries@[j].content->ToolCall_0.is_monitor,
{
    let entries = thread.entries@;
    let n = entries.len() as int;
    if entries[i].content is ToolCall && entries[i].content->ToolCall_0.subagent_session_info
        is Some {
        each_subagent_is_listed_once(entries, i, i);
    }
    if model::is_waiting_call(entries[i]) {
        assert(has_approvals(thread));
    }
    if model::is_monitor_call(entries[i]) {
        assert(has_background_tasks(thread));
    }
    if has_approvals(thread) {
        let j = choose|j: int| 0 <= j < n && model::is_waiting_call(#[trigger] entries[j]);
        assert(entries[j].content is ToolCall);
    }
    if has_background_tasks(thread) {
        let j = choose|j: int| 0 <= j < n && model::is_monitor_call(#[trigger] entries[j]);
        assert(entries[j].content is ToolCall);
    }
    if has_subagents(thread) {
        lemma_latest_spawns(entries, n);
        let j = latest_spawns(entries, n)[0];
        assert(is_latest_spawn(entries, j));
        assert(entries[j].content is ToolCall);
    }
    if exists|j: int|
        0 <= j < n && (#[trigger] entries[j]).content is ToolCall
            && entries[j].content->ToolCall_0.status is WaitingForConfirmation {
        let j = choose|j: int|
            0 <= j < n && (#[trigger] entries[j]).content is ToolCall
                && entries[j].content->ToolCall_0.status is WaitingForConfirmation;
        assert(model::is_waiting_call(entries[j]));
    }
    if exists|j: int|
        0 <= j < n && (#[trigger] entries[j]).content is ToolCall
            && entries[j].content->ToolCall_0.is_monitor {
        let j = choose|j: int|
            0 <= j < n && (#[trigger] entries[j]).content is ToolCall
                && entries[j].content->ToolCall_0.is_monitor;
        assert(model::is_monitor_call(entries[j]));
    }
}

/// The bar is there for edits, a plan, queued messages, subagents, background tasks, approvals,
/// outstanding todos, a stalled turn, a call that waits out of sight, and always for the build
/// agent. Without any of these there is none.
pub proof fn the_bar_is_there_for_activity(
    view: ThreadView,
    thread: AcpThread,
    context: ActivityContext,
)
    ensures
        context.changed_buffers@.len() > 0 || view.local_queued_messages@.len() > 0
            || thread.has_outstanding_todos || has_subagents(thread) || has_background_tasks(thread)
            ==> has_activity(view, thread, context),
        context.changed_buffers@.len() == 0 && view.local_queued_messages@.len() == 0
            && !thread.has_outstanding_todos && !has_subagents(thread) && !has_background_tasks(
            thread,
        ) && !has_approvals(thread) && thread.plan.entries@.len() == 0 && context.turn_stalled_secs
            is None && context.pending is None && view.agent_id@ != "grok"@
            && !context.todos.native_is_grok_build_profile ==> !has_activity(
            view,
            thread,
            context,
        ),
{
}

/// The bar shows its parts where they have something to show: the todos, the edits of a root
/// thread, the queue, and the row of a stalled turn, with dividers between parts. The edited
/// files and the queued messages are listed while they are expanded.
pub proof fn the_bar_shows_its_parts(
    bar: ActivityBar,
    view: ThreadView,
    thread: AcpThread,
    context: ActivityContext,
)
    requires
        activity_bar_shows(bar, view, thread, context),
    ensures
        bar.todos is Some <==> thread.plan.entries@.len() > 0 || has_background_tasks(thread)
            || has_approvals(thread) || view.agent_id@ == "grok"@
            || context.todos.native_is_grok_build_profile,
        bar.edits is Some <==> context.changed_buffers@.len() > 0 && thread.parent_session_id
            is None,
        bar.edited_files is Some <==> bar.edits is Some && view.edits_expanded,
        bar.queue is Some <==> view.local_queued_messages@.len() > 0,
        bar.queue matches Some(title) ==> {
            &&& view.local_queued_messages@.len() == 1 ==> title@ == "1 Queued Message"@
            &&& view.local_queued_messages@.len() != 1 ==> title@ == text::decimal(
                view.local_queued_messages@.len(),
            ) + " Queued Messages"@
        },
        bar.queue_entries is Some <==> bar.queue is Some && view.queue_expanded,
        bar.queue_entries matches Some(rows) ==> rows@.len()
            == context.queue_editors_focused@.len(),
        bar.stalled is Some <==> context.turn_stalled_secs is Some,
        bar.awaiting is None ==> !has_subagents(thread),
        bar.awaiting matches Some(Awaiting::Subagents(_)) ==> has_subagents(thread),
        has_subagents(thread) ==> bar.awaiting is Some,
        bar.has_divider_below_awaiting ==> has_subagents(thread),
        bar.has_divider_above_queue ==> bar.queue is Some,
        bar.queue is Some && (thread.plan.entries@.len() > 0 || context.changed_buffers@.len() > 0
            || has_background_tasks(thread) || has_approvals(thread))
            ==> bar.has_divider_above_queue,
        bar.has_divider_above_edits <==> (context.changed_buffers@.len() > 0 && (
        thread.plan.entries@.len() > 0 || has_background_tasks(thread) || has_approvals(thread)))
            || (bar.awaiting is Some && (thread.plan.entries@.len() > 0
            || context.changed_buffers@.len() > 0 || view.local_queued_messages@.len() > 0)),
        bar.has_divider_below_awaiting <==> has_subagents(thread) && (thread.plan.entries@.len() > 0
            || context.changed_buffers@.len() > 0 || view.local_queued_messages@.len() > 0
            || has_background_tasks(thread) || has_approvals(thread)),
{
}

/// The rows of the subagents are kept apart by the places of their entries.
pub proof fn rows_of_subagents_are_kept_apart(
    item: SubagentItem,
    entries: Seq<AgentThreadEntry>,
    entry_ix: int,
    is_last: bool,
    risk: ApprovalRisk,
)
    requires
        0 <= entry_ix < entries.len(),
        subagent_item_shows(item, entries, entry_ix, is_last, risk),
    ensures
        item.id@ == "subagent-permission-"@ + text::decimal(entry_ix as nat),
        item.group@ == "group-"@ + text::decimal(entry_ix as nat),
        item.entry_ix == entry_ix,
        item.has_bottom_border <==> !is_last,
{
}

/// The row of a stalled turn shows the time in the colour of what is said in passing.
pub proof fn stalled_turns_are_counted_in_passing(row: StalledRow, secs: u64)
    requires
        stalled_shows(Some(row), Some(secs)),
    ensures
        row.label@ == text::decimal(secs as nat) + "s no progress"@,
        row.label_color == Color::Muted,
        row.button_icon == IconName::Stop,
{
}

/// The bar shows the edits as they stand: their heading can be used and counts the lines, no file
/// is held back, and each row speaks of its own buffer.
pub proof fn the_bar_shows_edits_as_they_stand(
    bar: ActivityBar,
    view: ThreadView,
    thread: AcpThread,
    context: ActivityContext,
    i: int,
)
    requires
        activity_bar_shows(bar, view, thread, context),
    ensures
        bar.edits matches Some(summary) ==> {
            &&& summary.is_expanded == view.edits_expanded
            &&& !summary.is_disabled
            &&& summary.disabled_tooltip is None
            &&& summary.stats == Some(context.stats)
            &&& context.changed_buffers@.len() == 1 ==> summary.label@ == text::decimal(1) + " "@
                + "file"@
            &&& context.changed_buffers@.len() > 1 ==> summary.label@ == text::decimal(
                context.changed_buffers@.len(),
            ) + " "@ + "files"@
        },
        bar.edited_files matches Some(rows) ==> (0 <= i < rows@.len() ==> !rows@[i].is_disabled
            && rows@[i].lines_added
            == context.changed_buffers@[rows@[i].buffer as int].lines_added
            && rows@[i].lines_removed
            == context.changed_buffers@[rows@[i].buffer as int].lines_removed),
{
    if let Some(rows) = bar.edited_files {
        if 0 <= i < rows@.len() {
            let order = choose|order: Seq<usize>|
                #[trigger] edits::is_sorted_order(order, context.changed_buffers@)
                    && edits::file_rows_show(rows@, order, context.changed_buffers@, false);
            let places = edits::places_with_files(order, context.changed_buffers@);
            assert(edits::row_at_shows(
                rows@[i],
                order,
                context.changed_buffers@,
                places[i],
                false,
            ));
        }
    }
}

/// The rows of the queue stand in its order, the next message first.
pub proof fn the_bar_shows_the_queue_in_order(
    bar: ActivityBar,
    view: ThreadView,
    thread: AcpThread,
    context: ActivityContext,
    i: int,
)
    requires
        activity_bar_shows(bar, view, thread, context),
        bar.queue_entries is Some,
        0 <= i < bar.queue_entries->0@.len(),
    ensures
        bar.queue_entries->0@[i].index == i,
        bar.queue_entries->0@[i].has_bottom_border <==> i + 1 < bar.queue_entries->0@.len(),
        bar.queue_entries->0@[i].buttons == queue::queue_buttons(
            i == 0,
            context.queue_editors_focused@[i],
            context.is_editor_empty,
            view.can_fast_track_queue,
        ),
{
    assert(queue::queue_entry_shows(
        bar.queue_entries->0@[i],
        view,
        i,
        context.queue_editors_focused@,
        context.is_editor_empty,
    ));
}

/// At the top of the bar stands the call of the main agent that waits out of sight, in a card that
/// is part of the bar; else the subagents, each with the risk of spawning one.
pub proof fn the_top_shows_who_waits(
    bar: ActivityBar,
    view: ThreadView,
    thread: AcpThread,
    context: ActivityContext,
    i: int,
)
    requires
        activity_bar_shows(bar, view, thread, context),
    ensures
        match bar.awaiting {
            Some(Awaiting::MainAgent(shown)) => {
                &&& context.pending is Some
                &&& shown.entry_ix < thread.entries@.len() ==> (
                thread.entries@[shown.entry_ix as int].content matches EntryContent::ToolCall(call)
                    && subagent::any_tool_call_shows(
                    shown.card,
                    view,
                    call,
                    shown.entry_ix,
                    ToolCallLayout::Embedded,
                    context.subagent,
                    context.cards,
                ))
                &&& context.pending->0.pending_count > 1 ==> shown.label@
                    == "Awaiting Confirmation"@ + " ("@ + text::decimal(
                    context.pending->0.pending_count as nat,
                ) + ")"@
                &&& context.pending->0.pending_count <= 1 ==> shown.label@
                    == "Awaiting Confirmation"@
            },
            Some(Awaiting::Subagents(list)) => {
                &&& list.items@.len() > 0
                &&& list.count@ == text::decimal(list.items@.len())
                &&& 0 <= i < list.items@.len() ==> {
                    &&& list.items@[i].risk_label@ == context.spawn_risk.word()
                    &&& list.items@[i].has_bottom_border <==> i + 1 < list.items@.len()
                    &&& list.items@[i].risk_color == Color::Warning <==> context.spawn_risk
                        == ApprovalRisk::PotentiallyDestructive
                }
            },
            None => true,
        },
{
    if let Some(Awaiting::Subagents(list)) = bar.awaiting {
        let spawns = latest_spawns(thread.entries@, thread.entries@.len() as int);
        if 0 <= i < list.items@.len() {
            assert(subagent_item_shows(
                list.items@[i],
                thread.entries@,
                spawns[i],
                i == spawns.len() - 1,
                context.spawn_risk,
            ));
        }
    }
}

} // verus!
