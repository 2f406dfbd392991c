//! The todos surface: pending approvals, the plan, background monitors and the
//! agent's memory, each in a section that can be expanded.

use crate::keyed::{KeySet, Keyed};
use crate::model::{
    AcpThread, AgentThreadEntry, ApprovalRisk, Color, EntryContent, IconName, LabelSize, PermissionOption,
    PermissionOptionKind, PermissionOptions, Plan, PlanEntry, PlanEntryStatus, StatusIcon, ToolCall,
    ToolCallId, ToolCallStatus, ToolRisk,
};
use crate::model;
use crate::text;
use vstd::prelude::*;
use vstd::string::*;

verus! {

/// Which sections of the surface are expanded.
pub struct ZedTodos {
    pub approvals_expanded: bool,
    pub plan_expanded: bool,
    pub background_tasks_expanded: bool,
    pub expanded_background_monitors: KeySet<ToolCallId>,
    pub grok_memory_expanded: bool,
}

impl Default for ZedTodos {
    /// All sections collapsed but the memory, and no monitor expanded.
    fn default() -> (r: Self)
        ensures
            !r.approvals_expanded,
            !r.plan_expanded,
            !r.background_tasks_expanded,
            r.expanded_background_monitors@ == Set::<Seq<char>>::empty(),
            r.grok_memory_expanded,
    {
        ZedTodos {
            approvals_expanded: false,
            plan_expanded: false,
            background_tasks_expanded: false,
            expanded_background_monitors: KeySet::new(),
            grok_memory_expanded: true,
        }
    }
}

impl ZedTodos {
    /// Whether all four sections are expanded.
    pub open spec fn all_expanded(self) -> bool {
        self.approvals_expanded && self.plan_expanded && self.background_tasks_expanded
            && self.grok_memory_expanded
    }

    /// Expands all four sections.
    pub fn expand_all(&mut self)
        ensures
            final(self).all_expanded(),
            final(self).expanded_background_monitors == old(self).expanded_background_monitors,
    {
        self.approvals_expanded = true;
        self.plan_expanded = true;
        self.background_tasks_expanded = true;
        self.grok_memory_expanded = true;
    }
}

/// The surface as a component that any pane can own.
pub struct ZedTodosComponent {
    pub state: ZedTodos,
}

/// The tool calls that wait for the user's answer, in order.
pub open spec fn waiting_calls(entries: Seq<AgentThreadEntry>) -> Seq<ToolCall>
    decreases entries.len(),
{
    if entries.len() == 0 {
        seq![]
    } else {
        let before = waiting_calls(entries.drop_last());
        match entries.last().content {
            EntryContent::ToolCall(call) => if call.status is WaitingForConfirmation {
                before.push(call)
            } else {
                before
            },
            _ => before,
        }
    }
}

/// The tool calls that run as background monitors, in order.
pub open spec fn monitor_calls(entries: Seq<AgentThreadEntry>) -> Seq<ToolCall>
    decreases entries.len(),
{
    if entries.len() == 0 {
        seq![]
    } else {
        let before = monitor_calls(entries.drop_last());
        match entries.last().content {
            EntryContent::ToolCall(call) => if call.is_monitor {
                before.push(call)
            } else {
                before
            },
            _ => before,
        }
    }
}

/// Whether the references point at the calls in order.
pub open spec fn refer_to(references: Seq<&ToolCall>, calls: Seq<ToolCall>) -> bool {
    &&& references.len() == calls.len()
    &&& forall|i: int| 0 <= i < calls.len() ==> *(#[trigger] references[i]) == calls[i]
}

/// The calls that the references point at.
pub open spec fn pointed_at(references: Seq<&ToolCall>) -> Seq<ToolCall> {
    Seq::new(references.len(), |i: int| *references[i])
}

/// The tool calls that wait for the user's answer, in order.
pub fn collect_pending_approval_tool_calls_free(thread: &AcpThread) -> (r: Vec<&ToolCall>)
    ensures
        refer_to(r@, waiting_calls(thread.entries@)),
{
    let mut calls: Vec<&ToolCall> = Vec::new();
    let mut i: usize = 0;
    while i < thread.entries.len()
        invariant
            i <= thread.entries@.len(),
            refer_to(calls@, waiting_calls(thread.entries@.take(i as int))),
        decreases thread.entries@.len() - i,
    {
        assert(thread.entries@.take(i + 1).drop_last() == thread.entries@.take(i as int));
        match &thread.entries[i].content {
            EntryContent::ToolCall(call) => {
                if call.status.is_waiting() {
                    calls.push(call);
                }
            },
            _ => {},
        }
        i = i + 1;
    }
    assert(thread.entries@.take(i as int) == thread.entries@);
    calls
}

/// The tool calls that run as background monitors, in order.
pub fn collect_background_monitor_tool_calls_free(thread: &AcpThread) -> (r: Vec<&ToolCall>)
    ensures
        refer_to(r@, monitor_calls(thread.entries@)),
{
    let mut calls: Vec<&ToolCall> = Vec::new();
    let mut i: usize = 0;
    while i < thread.entries.len()
        invariant
            i <= thread.entries@.len(),
            refer_to(calls@, monitor_calls(thread.entries@.take(i as int))),
        decreases thread.entries@.len() - i,
    {
        assert(thread.entries@.take(i + 1).drop_last() == thread.entries@.take(i as int));
        match &thread.entries[i].content {
            EntryContent::ToolCall(call) => {
                if call.is_monitor {
                    calls.push(call);
                }
            },
            _ => {},
        }
        i = i + 1;
    }
    assert(thread.entries@.take(i as int) == thread.entries@);
    calls
}

/// The tool calls that wait for the user's answer, in order.
pub fn collect_pending_approval_tool_calls(thread: &AcpThread) -> (r: Vec<&ToolCall>)
    ensures
        refer_to(r@, waiting_calls(thread.entries@)),
{
    collect_pending_approval_tool_calls_free(thread)
}

/// The tool calls that run as background monitors, in order.
pub fn collect_background_monitor_tool_calls(thread: &AcpThread) -> (r: Vec<&ToolCall>)
    ensures
        refer_to(r@, monitor_calls(thread.entries@)),
{
    collect_background_monitor_tool_calls_free(thread)
}

/// There is a pending approval exactly where an entry waits for an answer.
pub proof fn approvals_are_the_waiting_entries(entries: Seq<AgentThreadEntry>)
    ensures
        waiting_calls(entries).len() > 0 <==> exists|i: int|
            0 <= i < entries.len() && model::is_waiting_call(#[trigger] entries[i]),
        waiting_calls(entries).len() <= entries.len(),
    decreases entries.len(),
{
    if entries.len() > 0 {
        let before = entries.drop_last();
        approvals_are_the_waiting_entries(before);
        if exists|i: int| 0 <= i < before.len() && model::is_waiting_call(#[trigger] before[i]) {
            let i = choose|i: int|
                0 <= i < before.len() && model::is_waiting_call(#[trigger] before[i]);
            assert(model::is_waiting_call(entries[i]));
        }
        assert(model::is_waiting_call(entries.last()) ==> model::is_waiting_call(
            entries[entries.len() - 1],
        ));
        if exists|i: int| 0 <= i < entries.len() && model::is_waiting_call(#[trigger] entries[i]) {
            let i = choose|i: int|
                0 <= i < entries.len() && model::is_waiting_call(#[trigger] entries[i]);
            if i < before.len() {
                assert(model::is_waiting_call(before[i]));
            }
        }
    }
}

/// There is a background monitor exactly where an entry runs as one.
pub proof fn monitors_are_the_monitor_entries(entries: Seq<AgentThreadEntry>)
    ensures
        monitor_calls(entries).len() > 0 <==> exists|i: int|
            0 <= i < entries.len() && model::is_monitor_call(#[trigger] entries[i]),
        monitor_calls(entries).len() <= entries.len(),
    decreases entries.len(),
{
    if entries.len() > 0 {
        let before = entries.drop_last();
        monitors_are_the_monitor_entries(before);
        if exists|i: int| 0 <= i < before.len() && model::is_monitor_call(#[trigger] before[i]) {
            let i = choose|i: int|
                0 <= i < before.len() && model::is_monitor_call(#[trigger] before[i]);
            assert(model::is_monitor_call(entries[i]));
        }
        assert(model::is_monitor_call(entries.last()) ==> model::is_monitor_call(
            entries[entries.len() - 1],
        ));
        if exists|i: int| 0 <= i < entries.len() && model::is_monitor_call(#[trigger] entries[i]) {
            let i = choose|i: int|
                0 <= i < entries.len() && model::is_monitor_call(#[trigger] entries[i]);
            if i < before.len() {
                assert(model::is_monitor_call(before[i]));
            }
        }
    }
}

/// The number of calls that only read.
pub open spec fn read_only_count(calls: Seq<ToolCall>) -> nat
    decreases calls.len(),
{
    if calls.len() == 0 {
        0
    } else {
        read_only_count(calls.drop_last()) + (if calls.last().risk.risk == ApprovalRisk::ReadOnly {
            1nat
        } else {
            0nat
        })
    }
}

/// A button that answers an approval.
pub struct ApprovalActionButton {
    pub id: &'static str,
    pub item_index: usize,
    pub label: String,
    pub icon: IconName,
    pub icon_color: Color,
}

/// What an action button shows.
pub open spec fn action_shows(
    button: ApprovalActionButton,
    id: Seq<char>,
    item_index: usize,
    action: Seq<char>,
    risk_label: Seq<char>,
    icon: IconName,
    icon_color: Color,
) -> bool {
    &&& button.id@ == id
    &&& button.item_index == item_index
    &&& button.label@ == action + " ("@ + risk_label + ")"@
    &&& button.icon == icon
    &&& button.icon_color == icon_color
}

/// The colour of the check icon for a risk.
pub open spec fn check_color(risk: ApprovalRisk) -> Color {
    match risk {
        ApprovalRisk::PotentiallyDestructive => Color::Warning,
        ApprovalRisk::ReadOnly => Color::Success,
    }
}

/// The word for denying, once or always.
pub open spec fn deny_word(is_always: bool) -> Seq<char> {
    if is_always {
        "Deny always"@
    } else {
        "Deny"@
    }
}

/// The button that accepts a proposed plan.
pub struct PlanAcceptButton {
    pub id: &'static str,
    pub icon: IconName,
    pub tooltip: String,
}

/// What the button that accepts a plan shows.
pub open spec fn accept_shows(button: PlanAcceptButton, risk_label: Seq<char>) -> bool {
    &&& button.id@ == "accept-proposed-plan"@
    &&& button.icon == IconName::Check
    &&& button.tooltip@ == "Accept proposed plan"@ + " ("@ + risk_label + ")"@
}

impl ZedTodosComponent {
    /// A component with the sections in their first state.
    pub fn new() -> (r: Self)
        ensures
            !r.state.approvals_expanded,
            !r.state.plan_expanded,
            !r.state.background_tasks_expanded,
            r.state.expanded_background_monitors@ == Set::<Seq<char>>::empty(),
            r.state.grok_memory_expanded,
    {
        ZedTodosComponent { state: ZedTodos::default() }
    }

    /// Expands or collapses the approvals.
    pub fn toggle_approvals_expanded(&mut self)
        ensures
            final(self).state == (ZedTodos {
                approvals_expanded: !old(self).state.approvals_expanded,
                ..old(self).state
            }),
    {
        self.state.approvals_expanded = !self.state.approvals_expanded;
    }

    /// Expands or collapses the plan.
    pub fn toggle_plan_expanded(&mut self)
        ensures
            final(self).state == (ZedTodos {
                plan_expanded: !old(self).state.plan_expanded,
                ..old(self).state
            }),
    {
        self.state.plan_expanded = !self.state.plan_expanded;
    }

    /// Expands or collapses the background monitors.
    pub fn toggle_background_tasks_expanded(&mut self)
        ensures
            final(self).state == (ZedTodos {
                background_tasks_expanded: !old(self).state.background_tasks_expanded,
                ..old(self).state
            }),
    {
        self.state.background_tasks_expanded = !self.state.background_tasks_expanded;
    }

    /// Expands or collapses the memory.
    pub fn toggle_grok_memory_expanded(&mut self)
        ensures
            final(self).state == (ZedTodos {
                grok_memory_expanded: !old(self).state.grok_memory_expanded,
                ..old(self).state
            }),
    {
        self.state.grok_memory_expanded = !self.state.grok_memory_expanded;
    }

    /// Expands or collapses one monitor.
    pub fn toggle_background_monitor(&mut self, id: ToolCallId)
        ensures
            final(self).state == (ZedTodos {
                expanded_background_monitors: final(self).state.expanded_background_monitors,
                ..old(self).state
            }),
            final(self).state.expanded_background_monitors@ == ({
                let before = old(self).state.expanded_background_monitors@;
                if before.contains(id.key()) {
                    before.remove(id.key())
                } else {
                    before.insert(id.key())
                }
            }),
    {
        self.state.expanded_background_monitors.toggle(id);
    }

    /// Whether the monitor is expanded.
    pub fn is_background_monitor_expanded(&self, id: &ToolCallId) -> (r: bool)
        ensures
            r == self.state.expanded_background_monitors@.contains(id.key()),
    {
        self.state.expanded_background_monitors.contains(id)
    }

    /// The first answer of each kind: allow once, allow always, reject once, reject always.
    /// Nothing where the call does not wait for an answer.
    pub fn pending_approval_options_for_tool_call(tool_call: &ToolCall) -> (r: (
        Option<PermissionOption>,
        Option<PermissionOption>,
        Option<PermissionOption>,
        Option<PermissionOption>,
    ))
        ensures
            r == (
                pending_option(*tool_call, PermissionOptionKind::AllowOnce),
                pending_option(*tool_call, PermissionOptionKind::AllowAlways),
                pending_option(*tool_call, PermissionOptionKind::RejectOnce),
                pending_option(*tool_call, PermissionOptionKind::RejectAlways),
            ),
    {
        match &tool_call.status {
            ToolCallStatus::WaitingForConfirmation { options } => (
                options.first_option_of_kind(PermissionOptionKind::AllowOnce),
                options.first_option_of_kind(PermissionOptionKind::AllowAlways),
                options.first_option_of_kind(PermissionOptionKind::RejectOnce),
                options.first_option_of_kind(PermissionOptionKind::RejectAlways),
            ),
            _ => (None, None, None, None),
        }
    }

    /// An action with the word for its risk: `Allow once (RO)`.
    pub fn format_classified_approval_action_label(
        action_kind: &str,
        risk: ApprovalRisk,
    ) -> (r: String)
        ensures
            r@ == action_kind@ + " ("@ + risk.word() + ")"@,
    {
        text::bracketed(action_kind, risk.label())
    }

    /// An action with the word for its risk in the tool: `Allow once (Write)`.
    pub fn format_classified_approval_action_label_with_tool(
        action_kind: &str,
        risk: &ToolRisk,
    ) -> (r: String)
        ensures
            r@ == action_kind@ + " ("@ + risk.display_label@ + ")"@,
    {
        text::bracketed(action_kind, risk.display_label.as_str())
    }

    /// The colour of the check icon for a risk.
    pub fn approval_action_check_icon_color(classified_risk: ApprovalRisk) -> (r: Color)
        ensures
            r == check_color(classified_risk),
    {
        if classified_risk == ApprovalRisk::PotentiallyDestructive {
            Color::Warning
        } else {
            Color::Success
        }
    }

    /// How many approvals are pending: in all, those that only read, and the others.
    pub fn pending_approval_counts(thread: &AcpThread) -> (r: (usize, usize, usize))
        ensures
            ({
                let calls = waiting_calls(thread.entries@);
                &&& r.0 == calls.len()
                &&& r.1 == read_only_count(calls)
                &&& r.2 == calls.len() - read_only_count(calls)
            }),
    {
        let pending = collect_pending_approval_tool_calls_free(thread);
        let ghost calls = waiting_calls(thread.entries@);
        let mut read_only: usize = 0;
        let mut i: usize = 0;
        while i < pending.len()
            invariant
                i <= pending@.len(),
                refer_to(pending@, calls),
                read_only <= i,
                read_only == read_only_count(calls.take(i as int)),
            decreases pending@.len() - i,
        {
            assert(calls.take(i + 1).drop_last() == calls.take(i as int));
            assert(*pending@[i as int] == calls[i as int]);
            if pending[i].risk.risk.is_read_only() {
                read_only = read_only + 1;
            }
            i = i + 1;
        }
        assert(calls.take(i as int) == calls);
        (pending.len(), read_only, pending.len() - read_only)
    }

    /// The row of a step of a plan.
    pub fn render_plan_entry_row(index: usize, total_entries: usize, entry: &PlanEntry) -> (r:
        PlanEntryRow)
        requires
            total_entries > 0,
        ensures
            plan_row_shows(r, index, total_entries, *entry),
    {
        render_plan_entry_row_free(index, total_entries, entry)
    }

    /// A button that answers an approval.
    pub fn build_approval_action_button(
        id: &'static str,
        item_index: usize,
        label: String,
        icon: IconName,
        icon_color: Color,
    ) -> (r: ApprovalActionButton)
        ensures
            r == (ApprovalActionButton { id, item_index, label, icon, icon_color }),
    {
        ApprovalActionButton { id, item_index, label, icon, icon_color }
    }

    /// The button that allows once, with the word for the risk.
    pub fn build_allow_once_action(item_index: usize, risk: ApprovalRisk) -> (r:
        ApprovalActionButton)
        ensures
            action_shows(
                r,
                "allow_once"@,
                item_index,
                "Allow once"@,
                risk.word(),
                IconName::Check,
                Color::Success,
            ),
    {
        Self::build_approval_action_button(
            "allow_once",
            item_index,
            Self::format_classified_approval_action_label("Allow once", risk),
            IconName::Check,
            Color::Success,
        )
    }

    /// The button that allows once, with the word for the risk in the tool.
    pub fn build_allow_once_action_with_tool(item_index: usize, risk: &ToolRisk) -> (r:
        ApprovalActionButton)
        ensures
            action_shows(
                r,
                "allow_once"@,
                item_index,
                "Allow once"@,
                risk.display_label@,
                IconName::Check,
                Color::Success,
            ),
    {
        Self::build_approval_action_button(
            "allow_once",
            item_index,
            Self::format_classified_approval_action_label_with_tool("Allow once", risk),
            IconName::Check,
            Color::Success,
        )
    }

    /// The button that allows always, with the word for the risk.
    pub fn build_allow_always_action(item_index: usize, risk: ApprovalRisk) -> (r:
        ApprovalActionButton)
        ensures
            action_shows(
                r,
                "allow_always"@,
                item_index,
                "Allow always"@,
                risk.word(),
                IconName::CheckDouble,
                check_color(risk),
            ),
    {
        Self::build_approval_action_button(
            "allow_always",
            item_index,
            Self::format_classified_approval_action_label("Allow always", risk),
            IconName::CheckDouble,
            Self::approval_action_check_icon_color(risk),
        )
    }

    /// The button that allows always, with the word for the risk in the tool.
    pub fn build_allow_always_action_with_tool(item_index: usize, risk: &ToolRisk) -> (r:
        ApprovalActionButton)
        ensures
            action_shows(
                r,
                "allow_always"@,
                item_index,
                "Allow always"@,
                risk.display_label@,
                IconName::CheckDouble,
                check_color(risk.risk),
            ),
    {
        Self::build_approval_action_button(
            "allow_always",
            item_index,
            Self::format_classified_approval_action_label_with_tool("Allow always", risk),
            IconName::CheckDouble,
            Self::approval_action_check_icon_color(risk.risk),
        )
    }

    /// The button that allows the patterns of a command, with the word for the risk.
    pub fn build_granular_allow_action(item_index: usize, risk: ApprovalRisk) -> (r:
        ApprovalActionButton)
        ensures
            action_shows(
                r,
                "granular_allow"@,
                item_index,
                "Allow granular"@,
                risk.word(),
                IconName::CheckDouble,
                check_color(risk),
            ),
    {
        Self::build_approval_action_button(
            "granular_allow",
            item_index,
            Self::format_classified_approval_action_label("Allow granular", risk),
            IconName::CheckDouble,
            Self::approval_action_check_icon_color(risk),
        )
    }

    /// The button that allows the patterns of a command, with the word for the risk in the
    /// tool.
    pub fn build_granular_allow_action_with_tool(item_index: usize, risk: &ToolRisk) -> (r:
        ApprovalActionButton)
        ensures
            action_shows(
                r,
                "granular_allow"@,
                item_index,
                "Allow granular"@,
                risk.display_label@,
                IconName::CheckDouble,
                check_color(risk.risk),
            ),
    {
        Self::build_approval_action_button(
            "granular_allow",
            item_index,
            Self::format_classified_approval_action_label_with_tool("Allow granular", risk),
            IconName::CheckDouble,
            Self::approval_action_check_icon_color(risk.risk),
        )
    }

    /// The button that denies, with the word for the risk.
    pub fn build_deny_action(item_index: usize, risk: ApprovalRisk, is_always: bool) -> (r:
        ApprovalActionButton)
        ensures
            action_shows(
                r,
                "deny"@,
                item_index,
                deny_word(is_always),
                risk.word(),
                IconName::Close,
                Color::Error,
            ),
    {
        let label_text = if is_always {
            "Deny always"
        } else {
            "Deny"
        };
        Self::build_approval_action_button(
            "deny",
            item_index,
            Self::format_classified_approval_action_label(label_text, risk),
            IconName::Close,
            Color::Error,
        )
    }

    /// The button that denies, with the word for the risk in the tool.
    pub fn build_deny_action_with_tool(item_index: usize, risk: &ToolRisk, is_always: bool) -> (r:
        ApprovalActionButton)
        ensures
            action_shows(
                r,
                "deny"@,
                item_index,
                deny_word(is_always),
                risk.display_label@,
                IconName::Close,
                Color::Error,
            ),
    {
        let label_text = if is_always {
            "Deny always"
        } else {
            "Deny"
        };
        Self::build_approval_action_button(
            "deny",
            item_index,
            Self::format_classified_approval_action_label_with_tool(label_text, risk),
            IconName::Close,
            Color::Error,
        )
    }

    /// The button that accepts a proposed plan, with the word for the risk.
    pub fn build_plan_accept_button(risk: ApprovalRisk) -> (r: PlanAcceptButton)
        ensures
            accept_shows(r, risk.word()),
    {
        PlanAcceptButton {
            id: "accept-proposed-plan",
            icon: IconName::Check,
            tooltip: text::bracketed("Accept proposed plan", risk.label()),
        }
    }

    /// The button that accepts a proposed plan, with the word for the risk in the tool.
    pub fn build_plan_accept_button_with_tool(risk: &ToolRisk) -> (r: PlanAcceptButton)
        ensures
            accept_shows(r, risk.display_label@),
    {
        PlanAcceptButton {
            id: "accept-proposed-plan",
            icon: IconName::Check,
            tooltip: text::bracketed("Accept proposed plan", risk.display_label.as_str()),
        }
    }
}

/// The first answer of a kind that a waiting call offers.
pub open spec fn pending_option(call: ToolCall, kind: PermissionOptionKind) -> Option<
    PermissionOption,
> {
    match call.status {
        ToolCallStatus::WaitingForConfirmation { options } => model::first_of_kind(
            options.all(),
            kind,
        ),
        _ => None,
    }
}

/// A small label for a risk.
pub struct RiskChip {
    pub label: &'static str,
    pub icon: Option<IconName>,
    pub color: Color,
    pub label_size: LabelSize,
}

/// What the chip of a risk shows: an exclamation mark for what can write outside the
/// working directory, else whether something can be written.
pub open spec fn chip_shows(
    chip: RiskChip,
    risk: ApprovalRisk,
    is_externally_destructive: bool,
    label_size: LabelSize,
) -> bool {
    &&& chip.label_size == label_size
    &&& if is_externally_destructive {
        chip.label@ == "!"@ && chip.icon == Some(IconName::Warning) && chip.color == Color::Warning
    } else {
        &&& chip.icon is None
        &&& match risk {
            ApprovalRisk::ReadOnly => chip.label@ == "RO"@ && chip.color == Color::Success,
            ApprovalRisk::PotentiallyDestructive => chip.label@ == "RW"@ && chip.color
                == Color::Accent,
        }
    }
}

/// The chip of a risk.
pub fn render_risk_chip(
    risk: ApprovalRisk,
    is_externally_destructive: bool,
    label_size: LabelSize,
) -> (r: RiskChip)
    ensures
        chip_shows(r, risk, is_externally_destructive, label_size),
{
    if is_externally_destructive {
        return RiskChip {
            label: "!",
            icon: Some(IconName::Warning),
            color: Color::Warning,
            label_size,
        };
    }
    match risk {
        ApprovalRisk::ReadOnly => RiskChip {
            label: "RO",
            icon: None,
            color: Color::Success,
            label_size,
        },
        ApprovalRisk::PotentiallyDestructive => RiskChip {
            label: "RW",
            icon: None,
            color: Color::Accent,
            label_size,
        },
    }
}

/// The chip of the risk of a tool.
pub fn render_risk_chip_with_tool(risk: &ToolRisk, label_size: LabelSize) -> (r: RiskChip)
    ensures
        chip_shows(r, risk.risk, risk.is_externally_destructive, label_size),
{
    render_risk_chip(risk.risk, risk.is_externally_destructive, label_size)
}

/// The row of a pending approval.
pub struct ApprovalRow {
    pub chip: RiskChip,
    pub label: String,
    pub label_color: Color,
    /// The button that allows once, and the answer it gives.
    pub allow_once: Option<(ApprovalActionButton, PermissionOption)>,
    pub allow_always: Option<(ApprovalActionButton, PermissionOption)>,
    /// The button that allows all patterns, and how many there are.
    pub granular_allow: Option<(ApprovalActionButton, usize)>,
    pub deny: Option<(ApprovalActionButton, PermissionOption)>,
}

/// The row of a pending approval.
pub fn render_approval_row(
    risk: &ToolRisk,
    label: String,
    allow_once: Option<(ApprovalActionButton, PermissionOption)>,
    allow_always: Option<(ApprovalActionButton, PermissionOption)>,
    granular_allow: Option<(ApprovalActionButton, usize)>,
    deny: Option<(ApprovalActionButton, PermissionOption)>,
) -> (r: ApprovalRow)
    ensures
        chip_shows(r.chip, risk.risk, risk.is_externally_destructive, LabelSize::XSmall),
        r.label == label,
        r.label_color == (if risk.risk == ApprovalRisk::ReadOnly {
            Color::Muted
        } else {
            Color::Warning
        }),
        r.allow_once == allow_once,
        r.allow_always == allow_always,
        r.granular_allow == granular_allow,
        r.deny == deny,
{
    let label_color = if risk.risk.is_read_only() {
        Color::Muted
    } else {
        Color::Warning
    };
    ApprovalRow {
        chip: render_risk_chip_with_tool(risk, LabelSize::XSmall),
        label,
        label_color,
        allow_once,
        allow_always,
        granular_allow,
        deny,
    }
}

/// The row of a step of a plan.
pub struct PlanEntryRow {
    pub index: usize,
    pub group: String,
    pub has_bottom_border: bool,
    pub status_icon: StatusIcon,
    pub chip: RiskChip,
    /// The step, which is also what the tooltip shows and the copy button copies.
    pub text: String,
}

/// The icon for the state of a step.
pub open spec fn plan_status_icon(status: PlanEntryStatus) -> StatusIcon {
    match status {
        PlanEntryStatus::InProgress => StatusIcon::Spinner,
        PlanEntryStatus::Completed => StatusIcon::Icon(IconName::Check, Color::Success),
        PlanEntryStatus::Pending => StatusIcon::Icon(IconName::Circle, Color::Muted),
    }
}

/// What the row of a step shows.
pub open spec fn plan_row_shows(
    row: PlanEntryRow,
    index: usize,
    total_entries: usize,
    entry: PlanEntry,
) -> bool {
    &&& row.index == index
    &&& row.group@ == "plan-entry-group-"@ + text::decimal(index as nat)
    &&& row.has_bottom_border == (index < total_entries - 1)
    &&& row.status_icon == plan_status_icon(entry.status)
    &&& chip_shows(row.chip, entry.risk, entry.is_externally_destructive, LabelSize::XSmall)
    &&& row.text == entry.content
}

/// The row of a step of a plan.
pub fn render_plan_entry_row_free(index: usize, total_entries: usize, entry: &PlanEntry) -> (r:
    PlanEntryRow)
    requires
        total_entries > 0,
    ensures
        plan_row_shows(r, index, total_entries, *entry),
{
    let status_icon = match entry.status {
        PlanEntryStatus::InProgress => StatusIcon::Spinner,
        PlanEntryStatus::Completed => StatusIcon::Icon(IconName::Check, Color::Success),
        PlanEntryStatus::Pending => StatusIcon::Icon(IconName::Circle, Color::Muted),
    };
    PlanEntryRow {
        index,
        group: text::with_count("plan-entry-group-", index),
        has_bottom_border: index < total_entries - 1,
        status_icon,
        chip: render_risk_chip(entry.risk, entry.is_externally_destructive, LabelSize::XSmall),
        text: entry.content.clone(),
    }
}

/// The rows of a plan, one for each step in order.
pub open spec fn plan_rows_show(rows: Seq<PlanEntryRow>, entries: Seq<PlanEntry>) -> bool {
    &&& rows.len() == entries.len()
    &&& forall|i: int|
        0 <= i < rows.len() ==> plan_row_shows(
            #[trigger] rows[i],
            i as usize,
            entries.len() as usize,
            entries[i],
        )
}

/// The rows of a plan, one for each step in order.
pub fn render_plan_entries(plan: &Plan) -> (r: Vec<PlanEntryRow>)
    ensures
        plan_rows_show(r@, plan.entries@),
{
    let total = plan.entries.len();
    let mut rows: Vec<PlanEntryRow> = Vec::new();
    let mut i: usize = 0;
    while i < total
        invariant
            i <= plan.entries@.len(),
            rows@.len() == i,
            total == plan.entries@.len(),
            forall|j: int|
                0 <= j < i ==> plan_row_shows(
                    #[trigger] rows@[j],
                    j as usize,
                    total,
                    plan.entries@[j],
                ),
        decreases plan.entries@.len() - i,
    {
        rows.push(
            ZedTodosComponent::render_plan_entry_row(i, total, &plan.entries[i]),
        );
        i = i + 1;
    }
    rows
}

/// The header of the row of a background task.
pub struct BackgroundTaskHeader {
    pub chip: RiskChip,
    pub label: String,
}

/// What an expanded background task shows below its header.
#[derive(Clone, Copy, PartialEq, Eq, Structural, Debug)]
pub enum BackgroundTaskBody {
    /// The view of the terminal with this identifier.
    Terminal(u64),
    /// A note that there is no live output.
    NoLiveOutput,
}

/// The row of a background task.
pub struct BackgroundTaskRow<H> {
    pub header: H,
    pub body: Option<BackgroundTaskBody>,
}

/// The row of a background task: its header, and its body where it has one.
pub fn render_background_task_row<H>(header: H, body: Option<BackgroundTaskBody>) -> (r:
    BackgroundTaskRow<H>)
    ensures
        r == (BackgroundTaskRow { header, body }),
{
    BackgroundTaskRow { header, body }
}

/// A fact that the agent remembers.
pub struct GrokFact {
    pub id: Option<String>,
    pub content: Option<String>,
    pub category: Option<String>,
    pub session_id: Option<String>,
    pub metadata: Option<String>,
}

/// What is known of the agent's memory.
pub struct GrokMemoryArtifacts {
    pub has_workspace_memory: bool,
    pub workspace_memory_preview: Option<String>,
    pub workspace_memory_path: Option<String>,
    pub workspace_memory_full: Option<String>,
    pub has_global_memory: bool,
    pub global_memory_path: Option<String>,
    pub global_memory_full: Option<String>,
    pub facts_from_db: Vec<GrokFact>,
}

/// A fact as it is shown: its content, and the key of the button that copies it.
pub struct MemoryFactItem {
    pub content: String,
    pub copy_key: String,
}

/// What the memory section shows.
pub struct MemoryItems {
    pub facts: Vec<MemoryFactItem>,
    pub preview: Option<String>,
    /// The note that there is no memory.
    pub disabled_notice: Option<&'static str>,
}

/// The content and the copy key of each fact that has a content.
pub open spec fn fact_items(facts: Seq<GrokFact>) -> Seq<(Seq<char>, Seq<char>)>
    decreases facts.len(),
{
    if facts.len() == 0 {
        seq![]
    } else {
        let before = fact_items(facts.drop_last());
        match facts.last().content {
            Some(content) => before.push(
                (content@, "copy-grok-fact-"@ + text::text_or(facts.last().id, "anon"@)),
            ),
            None => before,
        }
    }
}

/// The content and the copy key of each item.
pub open spec fn item_views(items: Seq<MemoryFactItem>) -> Seq<(Seq<char>, Seq<char>)> {
    Seq::new(items.len(), |i: int| (items[i].content@, items[i].copy_key@))
}

/// What the memory section shows of the memory.
pub open spec fn memory_shows(items: MemoryItems, artifacts: GrokMemoryArtifacts) -> bool {
    &&& item_views(items.facts@) == fact_items(artifacts.facts_from_db@)
    &&& items.preview == artifacts.workspace_memory_preview
    &&& text_of(items.disabled_notice) == (if artifacts.workspace_memory_preview is None
        && artifacts.facts_from_db@.len() == 0 && !artifacts.has_workspace_memory
        && !artifacts.has_global_memory {
        Some(
            "Memory disabled. Use TUI `grok` with --experimental-memory for cross-session facts bridging."@,
        )
    } else {
        None
    })
}

/// The characters of a fixed text that may be missing.
pub open spec fn text_of(text: Option<&'static str>) -> Option<Seq<char>> {
    match text {
        Some(t) => Some(t@),
        None => None,
    }
}

/// What the memory section shows: the facts, the preview of the workspace's memory, and
/// a note where there is no memory at all.
pub fn render_grok_memory_items(artifacts: &GrokMemoryArtifacts) -> (r: MemoryItems)
    ensures
        memory_shows(r, *artifacts),
{
    let facts = &artifacts.facts_from_db;
    let mut items: Vec<MemoryFactItem> = Vec::new();
    let mut i: usize = 0;
    assert(item_views(items@) =~= seq![]);
    while i < facts.len()
        invariant
            i <= facts@.len(),
            item_views(items@) == fact_items(facts@.take(i as int)),
        decreases facts@.len() - i,
    {
        assert(facts@.take(i + 1).drop_last() == facts@.take(i as int));
        let fact = &facts[i];
        match &fact.content {
            Some(content) => {
                let id: &str = match &fact.id {
                    Some(id) => id.as_str(),
                    None => "anon",
                };
                let copy_key = text::concat2("copy-grok-fact-", id);
                let ghost before = items@;
                items.push(MemoryFactItem { content: content.clone(), copy_key });
                assert(item_views(items@) =~= item_views(before).push(
                    (content@, "copy-grok-fact-"@ + text::text_or(fact.id, "anon"@)),
                ));
            },
            None => {},
        }
        i = i + 1;
    }
    assert(facts@.take(i as int) == facts@);
    let disabled = artifacts.workspace_memory_preview.is_none() && facts.len() == 0
        && !artifacts.has_workspace_memory && !artifacts.has_global_memory;
    let disabled_notice: Option<&'static str> = if disabled {
        Some(
            "Memory disabled. Use TUI `grok` with --experimental-memory for cross-session facts bridging.",
        )
    } else {
        None
    };
    MemoryItems {
        facts: items,
        preview: text::copy_option(&artifacts.workspace_memory_preview),
        disabled_notice,
    }
}

/// A section of the surface: its header and, where it is expanded, its rows.
pub struct SurfaceSection<T> {
    pub disclosure_id: &'static str,
    pub is_expanded: bool,
    pub label: String,
    pub rows: Option<T>,
}

/// A pending approval on the surface.
pub struct SurfaceApproval {
    pub chip: RiskChip,
    pub label: String,
    pub label_color: Color,
}

/// The surface with all its sections; a section with nothing to show is missing.
pub struct CategorizedSurface {
    pub approvals: Option<SurfaceSection<Vec<SurfaceApproval>>>,
    pub plan: Option<SurfaceSection<Vec<PlanEntryRow>>>,
    pub background: Option<SurfaceSection<Vec<BackgroundTaskRow<BackgroundTaskHeader>>>>,
    pub memory: Option<SurfaceSection<MemoryItems>>,
}

/// What the header of a section shows.
pub open spec fn header_shows<T>(
    section: SurfaceSection<T>,
    id: Seq<char>,
    is_expanded: bool,
    label: Seq<char>,
) -> bool {
    &&& section.disclosure_id@ == id
    &&& section.is_expanded == is_expanded
    &&& section.label@ == label
    &&& section.rows is Some <==> is_expanded
}

/// A label with a count in brackets.
pub open spec fn counted(label: Seq<char>, n: nat) -> Seq<char> {
    label + " ("@ + text::decimal(n) + ")"@
}

/// The rows of the approvals on the surface.
pub open spec fn surface_approvals_show(
    rows: Seq<SurfaceApproval>,
    calls: Seq<&ToolCall>,
) -> bool {
    &&& rows.len() == calls.len()
    &&& forall|i: int|
        0 <= i < rows.len() ==> {
            &&& chip_shows(
                (#[trigger] rows[i]).chip,
                calls[i].risk.risk,
                calls[i].risk.is_externally_destructive,
                LabelSize::XSmall,
            )
            &&& rows[i].label == calls[i].label
            &&& rows[i].label_color == (if calls[i].risk.risk == ApprovalRisk::ReadOnly {
                Color::Success
            } else {
                Color::Warning
            })
        }
}

/// The rows of the monitors on the surface.
pub open spec fn surface_monitors_show(
    rows: Seq<BackgroundTaskRow<BackgroundTaskHeader>>,
    calls: Seq<&ToolCall>,
) -> bool {
    &&& rows.len() == calls.len()
    &&& forall|i: int|
        0 <= i < rows.len() ==> {
            &&& chip_shows(
                (#[trigger] rows[i]).header.chip,
                calls[i].risk.risk,
                calls[i].risk.is_externally_destructive,
                LabelSize::XSmall,
            )
            &&& rows[i].header.label == calls[i].label
            &&& rows[i].body is None
        }
}

/// What the surface shows.
pub open spec fn surface_shows(
    surface: CategorizedSurface,
    approvals: Seq<&ToolCall>,
    plan: Plan,
    monitors: Seq<&ToolCall>,
    artifacts: GrokMemoryArtifacts,
    state: ZedTodos,
) -> bool {
    &&& surface.approvals is Some <==> approvals.len() > 0
    &&& surface.approvals matches Some(section) ==> header_shows(
        section,
        "zt1_conv_approvals"@,
        state.approvals_expanded,
        counted("Agent Approvals"@, approvals.len()),
    ) && (section.rows matches Some(rows) ==> surface_approvals_show(rows@, approvals))
    &&& surface.plan is Some <==> plan.entries@.len() > 0
    &&& surface.plan matches Some(section) ==> header_shows(
        section,
        "zt1_conv_plan"@,
        state.plan_expanded,
        counted(
            if plan.is_proposed {
                "Plan proposed"@
            } else {
                "Plan"@
            },
            plan.entries@.len(),
        ),
    ) && (section.rows matches Some(rows) ==> plan_rows_show(rows@, plan.entries@))
    &&& surface.background is Some <==> monitors.len() > 0
    &&& surface.background matches Some(section) ==> header_shows(
        section,
        "zt1_conv_bg"@,
        state.background_tasks_expanded,
        counted("Background Monitors"@, monitors.len()),
    ) && (section.rows matches Some(rows) ==> surface_monitors_show(rows@, monitors))
    &&& surface.memory is Some <==> artifacts.has_workspace_memory || artifacts.has_global_memory
    &&& surface.memory matches Some(section) ==> header_shows(
        section,
        "zt1_conv_mem"@,
        state.grok_memory_expanded,
        "Grok Memory (RO)"@,
    ) && (section.rows matches Some(items) ==> memory_shows(items, artifacts))
}

fn counted_label(label: &str, n: usize) -> (r: String)
    ensures
        r@ == counted(label@, n as nat),
{
    text::bracketed(label, text::count(n).as_str())
}

fn surface_approvals(calls: &Vec<&ToolCall>) -> (r: Vec<SurfaceApproval>)
    ensures
        surface_approvals_show(r@, calls@),
{
    let mut rows: Vec<SurfaceApproval> = Vec::new();
    let mut i: usize = 0;
    while i < calls.len()
        invariant
            i <= calls@.len(),
            surface_approvals_show(rows@, calls@.take(i as int)),
        decreases calls@.len() - i,
    {
        let call = calls[i];
        let label_color = if call.risk.risk.is_read_only() {
            Color::Success
        } else {
            Color::Warning
        };
        let ghost before = rows@;
        rows.push(
            SurfaceApproval {
                chip: render_risk_chip_with_tool(&call.risk, LabelSize::XSmall),
                label: call.label.clone(),
                label_color,
            },
        );
        assert forall|j: int| 0 <= j < i implies #[trigger] rows@[j] == before[j] by {}
        i = i + 1;
    }
    assert(calls@.take(i as int) == calls@);
    rows
}

fn surface_monitors(calls: &Vec<&ToolCall>) -> (r: Vec<BackgroundTaskRow<BackgroundTaskHeader>>)
    ensures
        surface_monitors_show(r@, calls@),
{
    let mut rows: Vec<BackgroundTaskRow<BackgroundTaskHeader>> = Vec::new();
    let mut i: usize = 0;
    while i < calls.len()
        invariant
            i <= calls@.len(),
            surface_monitors_show(rows@, calls@.take(i as int)),
        decreases calls@.len() - i,
    {
        let call = calls[i];
        let header = BackgroundTaskHeader {
            chip: render_risk_chip_with_tool(&call.risk, LabelSize::XSmall),
            label: call.label.clone(),
        };
        let ghost before = rows@;
        rows.push(render_background_task_row(header, None));
        assert forall|j: int| 0 <= j < i implies #[trigger] rows@[j] == before[j] by {}
        i = i + 1;
    }
    assert(calls@.take(i as int) == calls@);
    rows
}

/// The surface with all its sections.
pub fn render_zed_todos_categorized_surface(
    pending_approvals: &Vec<&ToolCall>,
    plan: &Plan,
    background_monitors: &Vec<&ToolCall>,
    grok_memory_artifacts: &GrokMemoryArtifacts,
    state: &ZedTodos,
) -> (r: CategorizedSurface)
    ensures
        surface_shows(
            r,
            pending_approvals@,
            *plan,
            background_monitors@,
            *grok_memory_artifacts,
            *state,
        ),
{
    let approvals = if pending_approvals.len() == 0 {
        None
    } else {
        let rows = if state.approvals_expanded {
            Some(surface_approvals(pending_approvals))
        } else {
            None
        };
        Some(
            SurfaceSection {
                disclosure_id: "zt1_conv_approvals",
                is_expanded: state.approvals_expanded,
                label: counted_label("Agent Approvals", pending_approvals.len()),
                rows,
            },
        )
    };
    let plan_section = if plan.entries.len() == 0 {
        None
    } else {
        let rows = if state.plan_expanded {
            Some(render_plan_entries(plan))
        } else {
            None
        };
        let title = if plan.is_proposed {
            "Plan proposed"
        } else {
            "Plan"
        };
        Some(
            SurfaceSection {
                disclosure_id: "zt1_conv_plan",
                is_expanded: state.plan_expanded,
                label: counted_label(title, plan.entries.len()),
                rows,
            },
        )
    };
    let background = if background_monitors.len() == 0 {
        None
    } else {
        let rows = if state.background_tasks_expanded {
            Some(surface_monitors(background_monitors))
        } else {
            None
        };
        Some(
            SurfaceSection {
                disclosure_id: "zt1_conv_bg",
                is_expanded: state.background_tasks_expanded,
                label: counted_label("Background Monitors", background_monitors.len()),
                rows,
            },
        )
    };
    let memory = if grok_memory_artifacts.has_workspace_memory
        || grok_memory_artifacts.has_global_memory {
        let rows = if state.grok_memory_expanded {
            Some(render_grok_memory_items(grok_memory_artifacts))
        } else {
            None
        };
        Some(
            SurfaceSection {
                disclosure_id: "zt1_conv_mem",
                is_expanded: state.grok_memory_expanded,
                label: "Grok Memory (RO)".to_owned(),
                rows,
            },
        )
    } else {
        None
    };
    CategorizedSurface { approvals, plan: plan_section, background, memory }
}

/// The section of the pending approvals in the activity bar.
pub struct ApprovalsSection {
    pub id: &'static str,
    pub is_expanded: bool,
    pub label: String,
    pub rows: Option<Vec<ApprovalRow>>,
}

/// The number of patterns that a waiting call offers.
pub open spec fn granular_patterns(call: ToolCall) -> nat {
    match call.status {
        ToolCallStatus::WaitingForConfirmation {
            options: PermissionOptions::DropdownWithPatterns { patterns, .. },
        } => patterns@.len(),
        _ => 0,
    }
}

/// The answer that the button that denies gives: once where that is offered, else always.
pub open spec fn deny_option(call: ToolCall) -> Option<PermissionOption> {
    match pending_option(call, PermissionOptionKind::RejectOnce) {
        Some(option) => Some(option),
        None => pending_option(call, PermissionOptionKind::RejectAlways),
    }
}

/// What the row of a pending approval shows.
pub open spec fn approval_row_shows(row: ApprovalRow, index: usize, call: ToolCall) -> bool {
    let risk = call.risk;
    &&& chip_shows(row.chip, risk.risk, risk.is_externally_destructive, LabelSize::XSmall)
    &&& row.label == call.label
    &&& row.label_color == (if risk.risk == ApprovalRisk::ReadOnly {
        Color::Muted
    } else {
        Color::Warning
    })
    &&& match (row.allow_once, pending_option(call, PermissionOptionKind::AllowOnce)) {
        (Some((button, answer)), Some(option)) => answer == option && action_shows(
            button,
            "allow_once"@,
            index,
            "Allow once"@,
            risk.display_label@,
            IconName::Check,
            Color::Success,
        ),
        (None, None) => true,
        _ => false,
    }
    &&& match (row.allow_always, pending_option(call, PermissionOptionKind::AllowAlways)) {
        (Some((button, answer)), Some(option)) => answer == option && action_shows(
            button,
            "allow_always"@,
            index,
            "Allow always"@,
            risk.display_label@,
            IconName::CheckDouble,
            check_color(risk.risk),
        ),
        (None, None) => true,
        _ => false,
    }
    &&& match row.granular_allow {
        Some((button, count)) => count > 0 && count == granular_patterns(call) && action_shows(
            button,
            "granular_allow"@,
            index,
            "Allow granular"@,
            risk.display_label@,
            IconName::CheckDouble,
            check_color(risk.risk),
        ),
        None => granular_patterns(call) == 0,
    }
    &&& match (row.deny, deny_option(call)) {
        (Some((button, answer)), Some(option)) => answer == option && action_shows(
            button,
            "deny"@,
            index,
            deny_word(option.kind == PermissionOptionKind::RejectAlways),
            risk.display_label@,
            IconName::Close,
            Color::Error,
        ),
        (None, None) => true,
        _ => false,
    }
}

fn approval_row(index: usize, call: &ToolCall) -> (r: ApprovalRow)
    ensures
        approval_row_shows(r, index, *call),
{
    let (once, always, reject_once, reject_always) =
        ZedTodosComponent::pending_approval_options_for_tool_call(call);
    let allow_once = match once {
        Some(option) => Some(
            (ZedTodosComponent::build_allow_once_action_with_tool(index, &call.risk), option),
        ),
        None => None,
    };
    let allow_always = match always {
        Some(option) => Some(
            (ZedTodosComponent::build_allow_always_action_with_tool(index, &call.risk), option),
        ),
        None => None,
    };
    let deny_answer = match reject_once {
        Some(option) => Some(option),
        None => reject_always,
    };
    let deny = match deny_answer {
        Some(option) => {
            let is_always = option.kind == PermissionOptionKind::RejectAlways;
            Some(
                (
                    ZedTodosComponent::build_deny_action_with_tool(index, &call.risk, is_always),
                    option,
                ),
            )
        },
        None => None,
    };
    let mut granular_allow: Option<(ApprovalActionButton, usize)> = None;
    match &call.status {
        ToolCallStatus::WaitingForConfirmation { options } => {
            match options {
                PermissionOptions::DropdownWithPatterns { patterns, .. } => {
                    if patterns.len() > 0 {
                        granular_allow = Some(
                            (
                                ZedTodosComponent::build_granular_allow_action_with_tool(
                                    index,
                                    &call.risk,
                                ),
                                patterns.len(),
                            ),
                        );
                    }
                },
                _ => {},
            }
        },
        _ => {},
    }
    render_approval_row(
        &call.risk,
        call.label.clone(),
        allow_once,
        allow_always,
        granular_allow,
        deny,
    )
}

/// The section of the pending approvals: its header and, where it is expanded, a row for
/// each approval.
pub fn render_agent_approvals_section(approvals: &Vec<&ToolCall>, expanded: bool) -> (r:
    ApprovalsSection)
    ensures
        r.id@ == "approvals_summary"@,
        r.is_expanded == expanded,
        r.label@ == counted("Agent Approvals"@, approvals@.len()),
        r.rows is Some <==> expanded,
        r.rows matches Some(rows) ==> rows@.len() == approvals@.len() && forall|i: int|
            0 <= i < rows@.len() ==> approval_row_shows(
                #[trigger] rows@[i],
                i as usize,
                *approvals@[i],
            ),
{
    let label = counted_label("Agent Approvals", approvals.len());
    if !expanded {
        return ApprovalsSection { id: "approvals_summary", is_expanded: false, label, rows: None };
    }
    let mut rows: Vec<ApprovalRow> = Vec::new();
    let mut i: usize = 0;
    while i < approvals.len()
        invariant
            i <= approvals@.len(),
            rows@.len() == i,
            forall|j: int|
                0 <= j < i ==> approval_row_shows(
                    #[trigger] rows@[j],
                    j as usize,
                    *approvals@[j],
                ),
        decreases approvals@.len() - i,
    {
        rows.push(approval_row(i, approvals[i]));
        i = i + 1;
    }
    ApprovalsSection { id: "approvals_summary", is_expanded: true, label, rows: Some(rows) }
}

/// Where a request offers to reject once, the button that denies rejects once and says so,
/// whatever else is offered. It rejects for good only where rejecting once is not offered, and
/// says that. Without an offer to reject there is no such button.
pub proof fn denying_rejects_once_where_it_can(
    row: ApprovalRow,
    index: usize,
    call: ToolCall,
    options: PermissionOptions,
    i: int,
)
    requires
        approval_row_shows(row, index, call),
        call.status == (ToolCallStatus::WaitingForConfirmation { options }),
    ensures
        0 <= i < options.all().len() && options.all()[i].kind == PermissionOptionKind::RejectOnce
            ==> (row.deny matches Some((button, answer)) && answer.kind
            == PermissionOptionKind::RejectOnce && button.label@ == "Deny"@ + " ("@
            + call.risk.display_label@ + ")"@),
        0 <= i < options.all().len() && options.all()[i].kind == PermissionOptionKind::RejectAlways
            ==> row.deny is Some,
        row.deny matches Some((button, answer)) ==> {
            &&& options.all().contains(answer)
            &&& button.icon == IconName::Close
            &&& button.icon_color == Color::Error
            &&& button.item_index == index
            &&& button.id@ == "deny"@
            &&& answer.kind == PermissionOptionKind::RejectOnce || (answer.kind
                == PermissionOptionKind::RejectAlways && button.label@ == "Deny always"@ + " ("@
                + call.risk.display_label@ + ")"@ && forall|j: int|
                0 <= j < options.all().len() ==> (#[trigger] options.all()[j]).kind
                    != PermissionOptionKind::RejectOnce)
        },
{
    let all = options.all();
    let once = model::the_first_of_a_kind_is_offered(all, PermissionOptionKind::RejectOnce);
    let always = model::the_first_of_a_kind_is_offered(all, PermissionOptionKind::RejectAlways);
}

/// The button that allows once gives the first answer of that kind, and the button that allows
/// always the first of the other. Each is there exactly where such an answer is offered.
pub proof fn allowing_gives_the_answer_of_its_kind(
    row: ApprovalRow,
    index: usize,
    call: ToolCall,
    options: PermissionOptions,
    i: int,
)
    requires
        approval_row_shows(row, index, call),
        call.status == (ToolCallStatus::WaitingForConfirmation { options }),
        0 <= i < options.all().len(),
    ensures
        options.all()[i].kind == PermissionOptionKind::AllowOnce ==> row.allow_once is Some,
        row.allow_once matches Some((button, answer)) ==> {
            &&& answer.kind == PermissionOptionKind::AllowOnce
            &&& options.all().contains(answer)
            &&& (forall|j: int|
                0 <= j < i ==> (#[trigger] options.all()[j]).kind
                    != PermissionOptionKind::AllowOnce) && options.all()[i].kind
                == PermissionOptionKind::AllowOnce ==> answer == options.all()[i]
            &&& button.label@ == "Allow once"@ + " ("@ + call.risk.display_label@ + ")"@
            &&& button.icon == IconName::Check
            &&& button.icon_color == Color::Success
            &&& button.item_index == index
        },
        options.all()[i].kind == PermissionOptionKind::AllowAlways ==> row.allow_always is Some,
        row.allow_always matches Some((button, answer)) ==> {
            &&& answer.kind == PermissionOptionKind::AllowAlways
            &&& options.all().contains(answer)
            &&& button.label@ == "Allow always"@ + " ("@ + call.risk.display_label@ + ")"@
            &&& button.icon == IconName::CheckDouble
            &&& button.icon_color == (if call.risk.risk == ApprovalRisk::ReadOnly {
                Color::Success
            } else {
                Color::Warning
            })
            &&& button.item_index == index
        },
{
    let all = options.all();
    let once = model::the_first_of_a_kind_is_offered(all, PermissionOptionKind::AllowOnce);
    let always = model::the_first_of_a_kind_is_offered(all, PermissionOptionKind::AllowAlways);
}

/// The button that allows all patterns is there exactly where the request has patterns, and
/// allows all of them.
pub proof fn allowing_patterns_allows_all_of_them(row: ApprovalRow, index: usize, call: ToolCall)
    requires
        approval_row_shows(row, index, call),
    ensures
        match call.status {
            ToolCallStatus::WaitingForConfirmation {
                options: PermissionOptions::DropdownWithPatterns { patterns, .. },
            } => {
                &&& row.granular_allow is Some <==> patterns@.len() != 0
                &&& row.granular_allow matches Some((button, count)) ==> count == patterns@.len()
                    && button.label@ == "Allow granular"@ + " ("@ + call.risk.display_label@ + ")"@
                    && button.id@ == "granular_allow"@ && button.item_index == index
            },
            _ => row.granular_allow is None,
        },
{
}

/// A call that does not wait offers no buttons. Every row shows the label of its call and the
/// risk, in the colour of a warning where something can be destroyed.
pub proof fn rows_show_the_call_and_its_risk(row: ApprovalRow, index: usize, call: ToolCall)
    requires
        approval_row_shows(row, index, call),
    ensures
        row.label@ == call.label@,
        row.label_color == Color::Warning <==> call.risk.risk
            == ApprovalRisk::PotentiallyDestructive,
        row.label_color == Color::Muted <==> call.risk.risk == ApprovalRisk::ReadOnly,
        !(call.status is WaitingForConfirmation) ==> row.allow_once is None && row.allow_always
            is None && row.granular_allow is None && row.deny is None,
{
}

/// The first answer of each kind that a waiting call offers is one of its answers.
pub proof fn pending_answers_are_offered(
    call: ToolCall,
    options: PermissionOptions,
    kind: PermissionOptionKind,
    i: int,
)
    requires
        0 <= i < options.all().len(),
    ensures
        !(call.status is WaitingForConfirmation) ==> pending_option(call, kind) is None,
        call.status == (ToolCallStatus::WaitingForConfirmation { options }) ==> {
            &&& pending_option(call, kind) matches Some(option) ==> option.kind == kind
                && options.all().contains(option)
            &&& options.all()[i].kind == kind ==> pending_option(call, kind) is Some
            &&& options.all()[i].kind == kind && (forall|j: int|
                0 <= j < i ==> (#[trigger] options.all()[j]).kind != kind) ==> pending_option(
                call,
                kind,
            ) == Some(options.all()[i])
        },
{
    let place = model::the_first_of_a_kind_is_offered(options.all(), kind);
}

/// The calls that wait are taken from the entries one by one, and so are the monitors: the calls
/// of two stretches of a thread are those of the first and then those of the second, and an
/// entry gives its call where that waits, or runs as a monitor.
pub proof fn calls_are_taken_entry_by_entry(
    first: Seq<AgentThreadEntry>,
    second: Seq<AgentThreadEntry>,
    entry: AgentThreadEntry,
)
    ensures
        waiting_calls(first + second) == waiting_calls(first) + waiting_calls(second),
        monitor_calls(first + second) == monitor_calls(first) + monitor_calls(second),
        match entry.content {
            EntryContent::ToolCall(call) => {
                &&& waiting_calls(seq![entry]) == (match call.status {
                    ToolCallStatus::WaitingForConfirmation { .. } => seq![call],
                    _ => seq![],
                })
                &&& monitor_calls(seq![entry]) == (if call.is_monitor {
                    seq![call]
                } else {
                    seq![]
                })
            },
            _ => waiting_calls(seq![entry]).len() == 0 && monitor_calls(seq![entry]).len() == 0,
        },
    decreases second.len(),
{
    reveal_with_fuel(waiting_calls, 3);
    reveal_with_fuel(monitor_calls, 3);
    assert(seq![entry].drop_last() =~= seq![]);
    if let EntryContent::ToolCall(call) = entry.content {
        assert(Seq::<ToolCall>::empty().push(call) =~= seq![call]);
    }
    if second.len() > 0 {
        calls_are_taken_entry_by_entry(first, second.drop_last(), entry);
        assert((first + second).drop_last() =~= first + second.drop_last());
        assert((first + second).last() == second.last());
        assert(waiting_calls(first + second) =~= waiting_calls(first) + waiting_calls(second));
        assert(monitor_calls(first + second) =~= monitor_calls(first) + monitor_calls(second));
    } else {
        assert(first + second =~= first);
        assert(waiting_calls(first) + waiting_calls(second) =~= waiting_calls(first));
        assert(monitor_calls(first) + monitor_calls(second) =~= monitor_calls(first));
    }
}

/// The calls that only read are counted one by one.
pub proof fn reading_calls_are_counted_one_by_one(
    first: Seq<ToolCall>,
    second: Seq<ToolCall>,
    call: ToolCall,
)
    ensures
        read_only_count(first + second) == read_only_count(first) + read_only_count(second),
        read_only_count(seq![call]) == 1 <==> call.risk.risk == ApprovalRisk::ReadOnly,
        read_only_count(seq![call]) == 0 <==> call.risk.risk
            == ApprovalRisk::PotentiallyDestructive,
        read_only_count(first) <= first.len(),
    decreases first.len() + second.len(),
{
    reveal_with_fuel(read_only_count, 3);
    assert(seq![call].drop_last() =~= seq![]);
    if second.len() > 0 {
        reading_calls_are_counted_one_by_one(first, second.drop_last(), call);
        assert((first + second).drop_last() =~= first + second.drop_last());
        assert((first + second).last() == second.last());
    } else {
        assert(first + second =~= first);
        if first.len() > 0 {
            reading_calls_are_counted_one_by_one(first.drop_last(), seq![], call);
        }
    }
}

/// References point at calls one by one.
pub proof fn references_point_one_by_one(
    references: Seq<&ToolCall>,
    calls: Seq<ToolCall>,
    i: int,
)
    requires
        refer_to(references, calls),
        0 <= i < calls.len(),
    ensures
        references.len() == calls.len(),
        *references[i] == calls[i],
        pointed_at(references) == calls,
{
    assert(pointed_at(references) =~= calls);
}

/// A button of the surface says what it does and how risky that is, and nothing else.
pub proof fn buttons_say_what_they_do(
    button: ApprovalActionButton,
    id: Seq<char>,
    item_index: usize,
    action: Seq<char>,
    risk_label: Seq<char>,
    icon: IconName,
    icon_color: Color,
)
    requires
        action_shows(button, id, item_index, action, risk_label, icon, icon_color),
    ensures
        button.id@ == id,
        button.item_index == item_index,
        button.label@ == action + seq![' ', '('] + risk_label + seq![')'],
        button.icon == icon,
        button.icon_color == icon_color,
{
    reveal_strlit(" (");
    reveal_strlit(")");
    assert(" ("@ =~= seq![' ', '(']);
    assert(")"@ =~= seq![')']);
}

/// What can destroy is checked in the colour of a warning, what only reads in that of success.
/// Denying for good is told from denying once.
pub proof fn colours_and_words_tell_risks_apart(risk: ApprovalRisk)
    ensures
        check_color(risk) == Color::Success <==> risk == ApprovalRisk::ReadOnly,
        check_color(risk) == Color::Warning <==> risk == ApprovalRisk::PotentiallyDestructive,
        deny_word(true) == "Deny always"@,
        deny_word(false) == "Deny"@,
        deny_word(true) != deny_word(false),
{
    reveal_strlit("Deny");
    reveal_strlit("Deny always");
    assert("Deny"@.len() == 4);
    assert("Deny always"@.len() == 11);
}

/// The button that accepts a plan says how risky that is.
pub proof fn accepting_a_plan_names_its_risk(button: PlanAcceptButton, risk_label: Seq<char>)
    requires
        accept_shows(button, risk_label),
    ensures
        button.id@ == "accept-proposed-plan"@,
        button.icon == IconName::Check,
        button.tooltip@ == "Accept proposed plan ("@ + risk_label + ")"@,
{
    reveal_strlit("Accept proposed plan");
    reveal_strlit(" (");
    reveal_strlit("Accept proposed plan (");
    assert("Accept proposed plan"@ + " ("@ =~= "Accept proposed plan ("@);
}

/// What can write outside the working directory is marked by an exclamation mark and a warning.
/// Else what only reads is told from what can write.
pub proof fn chips_tell_risks_apart(
    chip: RiskChip,
    risk: ApprovalRisk,
    is_externally_destructive: bool,
    label_size: LabelSize,
)
    requires
        chip_shows(chip, risk, is_externally_destructive, label_size),
    ensures
        chip.label_size == label_size,
        chip.icon == Some(IconName::Warning) <==> is_externally_destructive,
        chip.icon is None <==> !is_externally_destructive,
        chip.label@ == "!"@ <==> is_externally_destructive,
        chip.color == Color::Warning <==> is_externally_destructive,
        !is_externally_destructive ==> (chip.label@ == "RO"@ <==> risk == ApprovalRisk::ReadOnly)
            && (chip.label@ == "RW"@ <==> risk == ApprovalRisk::PotentiallyDestructive) && (
        chip.color == Color::Success <==> risk == ApprovalRisk::ReadOnly) && (chip.color
            == Color::Accent <==> risk == ApprovalRisk::PotentiallyDestructive),
{
    reveal_strlit("!");
    reveal_strlit("RO");
    reveal_strlit("RW");
    assert("!"@.len() == 1);
    assert("RO"@[1] == 'O');
    assert("RW"@[1] == 'W');
    assert("RO"@.len() == 2 && "RW"@.len() == 2);
}

/// The rows of a plan show its steps in order: a spinner on a step in progress, a check on one
/// that is complete, a circle on one that waits. All rows but the last have a border.
pub proof fn plans_show_their_steps(rows: Seq<PlanEntryRow>, entries: Seq<PlanEntry>, i: int)
    requires
        plan_rows_show(rows, entries),
        0 <= i < entries.len() <= usize::MAX,
    ensures
        rows.len() == entries.len(),
        rows[i].index == i,
        rows[i].text@ == entries[i].content@,
        rows[i].group@ == "plan-entry-group-"@ + text::decimal(i as nat),
        rows[i].status_icon is Spinner <==> entries[i].status == PlanEntryStatus::InProgress,
        rows[i].status_icon == StatusIcon::Icon(IconName::Check, Color::Success)
            <==> entries[i].status == PlanEntryStatus::Completed,
        rows[i].status_icon == StatusIcon::Icon(IconName::Circle, Color::Muted)
            <==> entries[i].status == PlanEntryStatus::Pending,
        rows[i].has_bottom_border <==> i + 1 < entries.len(),
        rows[i].chip.icon is Some <==> entries[i].is_externally_destructive,
        !entries[i].is_externally_destructive ==> (rows[i].chip.color == Color::Success
            <==> entries[i].risk == ApprovalRisk::ReadOnly),
        rows[i].chip.label_size == LabelSize::XSmall,
{
    assert(plan_row_shows(rows[i], i as usize, entries.len() as usize, entries[i]));
}

/// The row of a step shows the step, whichever of how many it is.
pub proof fn a_step_is_shown_in_its_row(
    row: PlanEntryRow,
    index: usize,
    total_entries: usize,
    entry: PlanEntry,
)
    requires
        plan_row_shows(row, index, total_entries, entry),
    ensures
        row.index == index,
        row.text@ == entry.content@,
        row.has_bottom_border <==> index + 1 < total_entries,
        row.status_icon is Spinner <==> entry.status == PlanEntryStatus::InProgress,
{
}

/// The facts that are shown are those with a content, in order, each with a key to copy it by.
pub proof fn facts_are_shown_one_by_one(first: Seq<GrokFact>, second: Seq<GrokFact>, fact: GrokFact)
    ensures
        fact_items(first + second) == fact_items(first) + fact_items(second),
        fact_items(seq![fact]).len() == (if fact.content is Some {
            1nat
        } else {
            0nat
        }),
        fact.content matches Some(content) ==> fact_items(seq![fact])[0].0 == content@ && (match (
            fact.id
        ) {
            Some(id) => fact_items(seq![fact])[0].1 == "copy-grok-fact-"@ + id@,
            None => fact_items(seq![fact])[0].1 == "copy-grok-fact-"@ + "anon"@,
        }),
    decreases second.len(),
{
    reveal_with_fuel(fact_items, 3);
    assert(seq![fact].drop_last() =~= seq![]);
    if second.len() > 0 {
        facts_are_shown_one_by_one(first, second.drop_last(), fact);
        assert((first + second).drop_last() =~= first + second.drop_last());
        assert((first + second).last() == second.last());
        assert(fact_items(first + second) =~= fact_items(first) + fact_items(second));
    } else {
        assert(first + second =~= first);
        assert(fact_items(first) + fact_items(second) =~= fact_items(first));
    }
}

/// The memory section shows the facts and the preview, and a note exactly where there is no
/// memory at all.
pub proof fn memory_is_shown_or_noted_as_missing(
    items: MemoryItems,
    artifacts: GrokMemoryArtifacts,
    i: int,
)
    requires
        memory_shows(items, artifacts),
    ensures
        items.preview == artifacts.workspace_memory_preview,
        items.facts@.len() == fact_items(artifacts.facts_from_db@).len(),
        0 <= i < items.facts@.len() ==> items.facts@[i].content@ == fact_items(
            artifacts.facts_from_db@,
        )[i].0 && items.facts@[i].copy_key@ == fact_items(artifacts.facts_from_db@)[i].1,
        items.disabled_notice is Some <==> artifacts.workspace_memory_preview is None
            && artifacts.facts_from_db@.len() == 0 && !artifacts.has_workspace_memory
            && !artifacts.has_global_memory,
        items.disabled_notice matches Some(notice) ==> notice@
            == "Memory disabled. Use TUI `grok` with --experimental-memory for cross-session facts bridging."@,
{
    let views = item_views(items.facts@);
    assert(views.len() == items.facts@.len());
    if 0 <= i < items.facts@.len() {
        assert(views[i] == fact_items(artifacts.facts_from_db@)[i]);
    }
}

/// A section of the surface is there exactly where it has something to show, and is written out
/// exactly where it is expanded. Its label counts what it holds.
pub proof fn sections_are_there_where_there_is_something(
    surface: CategorizedSurface,
    approvals: Seq<&ToolCall>,
    plan: Plan,
    monitors: Seq<&ToolCall>,
    artifacts: GrokMemoryArtifacts,
    state: ZedTodos,
    i: int,
)
    requires
        surface_shows(surface, approvals, plan, monitors, artifacts, state),
    ensures
        surface.approvals is Some <==> approvals.len() != 0,
        surface.plan is Some <==> plan.entries@.len() != 0,
        surface.background is Some <==> monitors.len() != 0,
        surface.memory is Some <==> artifacts.has_workspace_memory || artifacts.has_global_memory,
        surface.approvals matches Some(section) ==> {
            &&& section.is_expanded == state.approvals_expanded
            &&& section.rows is Some <==> state.approvals_expanded
            &&& section.label@ == "Agent Approvals"@ + " ("@ + text::decimal(approvals.len())
                + ")"@
            &&& section.rows matches Some(rows) ==> {
                &&& rows@.len() == approvals.len()
                &&& 0 <= i < rows@.len() ==> {
                    &&& rows@[i].label@ == approvals[i].label@
                    &&& rows@[i].label_color == Color::Success <==> approvals[i].risk.risk
                        == ApprovalRisk::ReadOnly
                    &&& rows@[i].label_color == Color::Warning <==> approvals[i].risk.risk
                        == ApprovalRisk::PotentiallyDestructive
                    &&& rows@[i].chip.icon is Some <==> approvals[i].risk.is_externally_destructive
                }
            }
        },
        surface.plan matches Some(section) ==> {
            &&& section.is_expanded == state.plan_expanded
            &&& section.rows is Some <==> state.plan_expanded
            &&& plan.is_proposed ==> section.label@ == "Plan proposed"@ + " ("@ + text::decimal(
                plan.entries@.len(),
            ) + ")"@
            &&& !plan.is_proposed ==> section.label@ == "Plan"@ + " ("@ + text::decimal(
                plan.entries@.len(),
            ) + ")"@
            &&& section.rows matches Some(rows) ==> rows@.len() == plan.entries@.len() && (0 <= i
                < rows@.len() ==> rows@[i].text@ == plan.entries@[i].content@)
        },
        surface.background matches Some(section) ==> {
            &&& section.is_expanded == state.background_tasks_expanded
            &&& section.rows is Some <==> state.background_tasks_expanded
            &&& section.label@ == "Background Monitors"@ + " ("@ + text::decimal(monitors.len())
                + ")"@
            &&& section.rows matches Some(rows) ==> rows@.len() == monitors.len() && (0 <= i
                < rows@.len() ==> rows@[i].header.label@ == monitors[i].label@ && rows@[i].body
                is None && (rows@[i].header.chip.icon is Some
                <==> monitors[i].risk.is_externally_destructive))
        },
        surface.memory matches Some(section) ==> {
            &&& section.is_expanded == state.grok_memory_expanded
            &&& section.rows is Some <==> state.grok_memory_expanded
            &&& section.label@ == "Grok Memory (RO)"@
            &&& section.rows matches Some(items) ==> items.preview
                == artifacts.workspace_memory_preview
        },
{
    if let Some(section) = surface.approvals {
        if let Some(rows) = section.rows {
            if 0 <= i < rows@.len() {
                assert(rows@[i].label == approvals[i].label);
            }
        }
    }
    if let Some(section) = surface.background {
        if let Some(rows) = section.rows {
            if 0 <= i < rows@.len() {
                assert(rows@[i].header.label == monitors[i].label);
            }
        }
    }
    if let Some(section) = surface.plan {
        if let Some(rows) = section.rows {
            if 0 <= i < rows@.len() {
                assert(plan_row_shows(
                    rows@[i],
                    i as usize,
                    plan.entries@.len() as usize,
                    plan.entries@[i],
                ));
            }
        }
    }
}

/// The header of a section stands for its section, and a count stands in brackets behind a label.
pub proof fn headers_count_in_brackets<T>(
    section: SurfaceSection<T>,
    id: Seq<char>,
    is_expanded: bool,
    label: Seq<char>,
    n: nat,
)
    requires
        header_shows(section, id, is_expanded, label),
    ensures
        section.disclosure_id@ == id,
        section.is_expanded == is_expanded,
        section.label@ == label,
        section.rows is Some <==> is_expanded,
        counted(label, n) == label + seq![' ', '('] + text::decimal(n) + seq![')'],
{
    reveal_strlit(" (");
    reveal_strlit(")");
    assert(" ("@ =~= seq![' ', '(']);
    assert(")"@ =~= seq![')']);
}

/// All sections are expanded exactly where each of the four is.
pub proof fn all_expanded_means_each(state: ZedTodos)
    ensures
        state.all_expanded() <==> !(!state.approvals_expanded || !state.plan_expanded
            || !state.background_tasks_expanded || !state.grok_memory_expanded),
{
}

/// The sections and the buttons are found by their identifiers.
pub proof fn sections_and_buttons_are_found(
    surface: CategorizedSurface,
    approvals: Seq<&ToolCall>,
    plan: Plan,
    monitors: Seq<&ToolCall>,
    artifacts: GrokMemoryArtifacts,
    state: ZedTodos,
    row: ApprovalRow,
    index: usize,
    call: ToolCall,
)
    requires
        surface_shows(surface, approvals, plan, monitors, artifacts, state),
        approval_row_shows(row, index, call),
    ensures
        surface.approvals matches Some(section) ==> section.disclosure_id@ == "zt1_conv_approvals"@,
        surface.plan matches Some(section) ==> section.disclosure_id@ == "zt1_conv_plan"@,
        surface.background matches Some(section) ==> section.disclosure_id@ == "zt1_conv_bg"@,
        surface.memory matches Some(section) ==> section.disclosure_id@ == "zt1_conv_mem"@,
        row.allow_once matches Some((button, _)) ==> button.id@ == "allow_once"@
            && button.item_index == index && button.icon == IconName::Check,
        row.allow_always matches Some((button, _)) ==> button.id@ == "allow_always"@
            && button.item_index == index && button.icon == IconName::CheckDouble,
{
}

/// The buttons that allow in part and that deny have their looks too.
pub proof fn buttons_that_allow_in_part_or_deny_have_looks(
    row: ApprovalRow,
    index: usize,
    call: ToolCall,
)
    requires
        approval_row_shows(row, index, call),
    ensures
        row.granular_allow matches Some((button, _)) ==> {
            &&& button.id@ == "granular_allow"@
            &&& button.item_index == index
            &&& button.icon == IconName::CheckDouble
            &&& button.icon_color == Color::Warning <==> call.risk.risk
                == ApprovalRisk::PotentiallyDestructive
            &&& button.icon_color == Color::Success <==> call.risk.risk == ApprovalRisk::ReadOnly
        },
        row.deny matches Some((button, _)) ==> {
            &&& button.id@ == "deny"@
            &&& button.item_index == index
            &&& button.icon == IconName::Close
            &&& button.icon_color == Color::Error
        },
{
}

/// The chips in the rows of calls are small, whatever their risk.
pub proof fn chips_in_rows_are_small(
    approvals: Seq<SurfaceApproval>,
    waiting: Seq<&ToolCall>,
    tasks: Seq<BackgroundTaskRow<BackgroundTaskHeader>>,
    monitors: Seq<&ToolCall>,
    row: ApprovalRow,
    index: usize,
    call: ToolCall,
    i: int,
)
    requires
        surface_approvals_show(approvals, waiting),
        surface_monitors_show(tasks, monitors),
        approval_row_shows(row, index, call),
    ensures
        0 <= i < approvals.len() ==> approvals[i].chip.label_size == LabelSize::XSmall,
        0 <= i < tasks.len() ==> tasks[i].header.chip.label_size == LabelSize::XSmall,
        row.chip.label_size == LabelSize::XSmall,
{
}

} // verus!
