//! The card of a tool call that runs a command in a terminal.

use crate::keyed::Keyed;
use crate::model::{
    AcpThread, ApprovalRisk, Color, PermissionOptions, Terminal, TerminalOutput, ToolCall, ToolCallId,
    ToolCallStatus,
};
use crate::permissions::{PermissionButtons, PermissionSelection};
use crate::permissions;
use crate::sending::Cancellation;
use crate::sending;
use crate::text;
use crate::thread_view::ThreadView;
use vstd::prelude::*;
use vstd::string::*;

verus! {

/// Where a tool call is drawn: on its own, or inside the card of a subagent.
#[derive(Clone, Copy, PartialEq, Eq, Structural, Debug)]
pub enum ToolCallLayout {
    Standalone,
    Embedded,
}

/// The time after which the elapsed time of a command is shown, in nanoseconds.
pub const ELAPSED_TIME_THRESHOLD: u64 = 10_000_000_000;

/// What the cards of tool calls depend on besides the view and the call.
pub struct CardContext<'a> {
    /// The session and the call that the conversation waits for first.
    pub pending: Option<(&'a str, &'a ToolCallId)>,
    pub is_native_connection: bool,
    pub has_project: bool,
    /// How many lines a terminal keeps.
    pub max_scroll_history_lines: u64,
    /// The icon for the file of the call's location.
    pub file_icon: Option<&'a str>,
}

/// A command, without the fence round it.
pub struct CommandView {
    /// What the copy button copies.
    pub command_text: String,
    /// The label above a command that has not run yet.
    pub label: Option<&'static str>,
}

/// What is asked when a call waits for an answer.
pub struct Confirmation {
    pub risk_label: &'static str,
    pub risk_color: Color,
    pub buttons: PermissionButtons,
}

/// The card of a command.
pub struct TerminalCard {
    pub header_id: String,
    pub header_group: String,
    pub working_dir: String,
    /// What a click on the header copies, and a middle click adds to the prompt.
    pub header_text: String,
    pub is_expanded: bool,
    pub elapsed: Option<String>,
    /// Whether a spinner and a button to stop the command are shown.
    pub is_running: bool,
    /// The tooltip of the label for truncated output.
    pub truncation: Option<String>,
    /// Whether the command or the call failed.
    pub is_failed: bool,
    /// The tooltip of the icon for a failure.
    pub exit_tooltip: Option<String>,
    pub has_card_border: bool,
    pub command: CommandView,
    pub shows_terminal: bool,
    pub confirmation: Option<Confirmation>,
}

/// The text of a command: what is between the fences, where there are fences.
pub open spec fn unfenced(source: Seq<char>) -> Seq<char> {
    match text::behind_prefix(source, "```\n"@) {
        Some(rest) => match text::before_suffix(rest, "\n```"@) {
            Some(command) => command,
            None => source,
        },
        None => source,
    }
}

/// What is shown of a command.
pub open spec fn command_shows(command: CommandView, source: Seq<char>, is_preview: bool) -> bool {
    &&& command.command_text@ == unfenced(source)
    &&& text::reference_view(command.label) == (if is_preview {
        Some("Run Command"@)
    } else {
        None
    })
}

/// The command of a call. The label of a call that runs a command is a fenced code block.
pub fn render_collapsible_command(is_preview: bool, source: &str) -> (r: CommandView)
    ensures
        command_shows(r, source@, is_preview),
{
    let command = match text::strip_prefix(source, "```\n") {
        Some(rest) => match text::strip_suffix(rest, "\n```") {
            Some(command) => command,
            None => source,
        },
        None => source,
    };
    let label: Option<&'static str> = if is_preview {
        Some("Run Command")
    } else {
        None
    };
    CommandView { command_text: command.to_owned(), label }
}

/// The colour of the chip for a risk in the card of a call.
pub open spec fn card_risk_color(risk: ApprovalRisk) -> Color {
    match risk {
        ApprovalRisk::ReadOnly => Color::Success,
        ApprovalRisk::PotentiallyDestructive => Color::Warning,
    }
}

/// Whether the call is the one that the conversation waits for first.
pub open spec fn is_first_call(view: ThreadView, call: ToolCall, context: CardContext) -> bool {
    context.pending matches Some((session_id, id)) && session_id@ == view.session_id@ && id.key()
        == call.id.key()
}

/// What the user has selected for the call.
pub open spec fn selection_for(view: ThreadView, call: ToolCall) -> Option<PermissionSelection> {
    if view.permission_selections@.contains_key(call.id.key()) {
        Some(view.permission_selections@[call.id.key()])
    } else {
        None
    }
}

/// What is asked when the call waits for an answer with these options.
pub open spec fn confirmation_shows(
    confirmation: Confirmation,
    view: ThreadView,
    call: ToolCall,
    options: PermissionOptions,
    entry_ix: usize,
    context: CardContext,
) -> bool {
    &&& confirmation.risk_label@ == call.risk.risk.word()
    &&& confirmation.risk_color == card_risk_color(call.risk.risk)
    &&& permissions::buttons_show(
        confirmation.buttons,
        is_first_call(view, call, context),
        options,
        selection_for(view, call),
        entry_ix,
    )
}

/// Whether the command has finished: there is output, and the call is not under way.
pub open spec fn command_finished(terminal: Terminal, call: ToolCall) -> bool {
    terminal.output is Some && !call.status.under_way()
}

/// Whether the command finished with an error.
pub open spec fn command_failed(terminal: Terminal, call: ToolCall) -> bool {
    &&& command_finished(terminal, call)
    &&& terminal.output matches Some(output) && output.exit_status matches Some(status)
        && !status.success
}

/// What the label for truncated output explains.
pub open spec fn truncation_text(output: TerminalOutput, max_lines: u64) -> Seq<char> {
    if output.content_line_count + 10 > max_lines {
        "Output exceeded terminal max lines and was truncated, the model received the first "@
            + output.content_size@ + "."@
    } else {
        "Output is "@ + output.original_size@
            + " long, and to avoid unexpected token usage, only "@ + output.content_size@
            + " was sent back to the agent."@
    }
}

/// What the card of a command shows.
pub open spec fn terminal_card_shows(
    card: TerminalCard,
    view: ThreadView,
    terminal: Terminal,
    call: ToolCall,
    entry_ix: usize,
    layout: ToolCallLayout,
    context: CardContext,
) -> bool {
    let id = text::decimal(terminal.entity_id as nat);
    let is_expanded = view.expanded_tool_calls@.contains(call.id.key());
    &&& card.header_id@ == "terminal-tool-header-"@ + id
    &&& card.header_group@ == "terminal-tool-header-group-"@ + id
    &&& card.working_dir@ == text::text_or(terminal.working_dir, "current directory"@)
    &&& card.header_text@ == call.label@
    &&& card.is_expanded == is_expanded
    &&& text::optional_view(card.elapsed) == (if terminal.elapsed_ns > ELAPSED_TIME_THRESHOLD {
        Some("("@ + terminal.elapsed_text@ + ")"@)
    } else {
        None
    })
    &&& card.is_running == (!command_finished(terminal, call)
        && !(call.status is WaitingForConfirmation))
    &&& text::optional_view(card.truncation) == (match terminal.output {
        Some(output) => if output.original_content_len > output.content_len {
            Some(truncation_text(output, context.max_scroll_history_lines))
        } else {
            None
        },
        None => None,
    })
    &&& card.is_failed == (call.status.ended_badly() || command_failed(terminal, call))
    &&& text::optional_view(card.exit_tooltip) == (match terminal.output {
        Some(output) => match output.exit_status {
            Some(status) => if card.is_failed {
                Some(
                    "Exited with code "@ + text::signed_decimal(
                        match status.code {
                            Some(code) => code as int,
                            None => -1,
                        },
                    ),
                )
            } else {
                None
            },
            None => None,
        },
        None => None,
    })
    &&& card.has_card_border == (layout == ToolCallLayout::Standalone)
    &&& command_shows(card.command, call.label@, false)
    &&& card.shows_terminal == (is_expanded && terminal.has_view)
    &&& card.confirmation is Some <==> call.status is WaitingForConfirmation
    &&& match (card.confirmation, call.status) {
        (Some(confirmation), ToolCallStatus::WaitingForConfirmation { options }) =>
            confirmation_shows(confirmation, view, call, options, entry_ix, context),
        _ => true,
    }
}

fn explain_truncation(output: &TerminalOutput, max_lines: u64) -> (r: String)
    requires
        output.content_line_count + 10 <= u64::MAX,
    ensures
        r@ == truncation_text(*output, max_lines),
{
    if output.content_line_count + 10 > max_lines {
        text::concat3(
            "Output exceeded terminal max lines and was truncated, the model received the first ",
            output.content_size.as_str(),
            ".",
        )
    } else {
        let mut r = text::concat3(
            "Output is ",
            output.original_size.as_str(),
            " long, and to avoid unexpected token usage, only ",
        );
        r.append(output.content_size.as_str());
        r.append(" was sent back to the agent.");
        r
    }
}

impl ThreadView {
    /// Whether the call is the one that the conversation waits for first.
    pub fn is_first_tool_call(&self, tool_call: &ToolCall, context: &CardContext) -> (r: bool)
        ensures
            r == is_first_call(*self, *tool_call, *context),
    {
        match context.pending {
            Some((session_id, id)) => text::same_text(session_id, self.session_id.as_str())
                && id.same_key(&tool_call.id),
            None => false,
        }
    }

    /// What is asked when the call waits for an answer with these options.
    pub fn render_confirmation(
        &self,
        tool_call: &ToolCall,
        options: &PermissionOptions,
        entry_ix: usize,
        context: &CardContext,
    ) -> (r: Confirmation)
        ensures
            confirmation_shows(r, *self, *tool_call, *options, entry_ix, *context),
    {
        let risk = tool_call.risk.risk;
        let risk_color = match risk {
            ApprovalRisk::ReadOnly => Color::Success,
            ApprovalRisk::PotentiallyDestructive => Color::Warning,
        };
        Confirmation {
            risk_label: risk.label(),
            risk_color,
            buttons: permissions::render_permission_buttons(
                self.is_first_tool_call(tool_call, context),
                options,
                self.permission_selections.get(&tool_call.id),
                entry_ix,
            ),
        }
    }

    /// The card of a command that a call runs in this terminal.
    pub fn render_terminal_tool_call(
        &self,
        entry_ix: usize,
        terminal: &Terminal,
        tool_call: &ToolCall,
        layout: ToolCallLayout,
        context: &CardContext,
    ) -> (r: TerminalCard)
        requires
            terminal.output matches Some(output) ==> output.content_line_count + 10 <= u64::MAX,
        ensures
            terminal_card_shows(r, *self, *terminal, *tool_call, entry_ix, layout, *context),
    {
        let tool_failed = tool_call.status.is_ended_badly();
        let needs_confirmation = tool_call.status.is_waiting();
        let command_finished = terminal.output.is_some() && !tool_call.status.is_under_way();
        let mut truncation: Option<String> = None;
        let mut exit_code: Option<i32> = None;
        let mut command_failed = false;
        match &terminal.output {
            Some(output) => {
                if output.original_content_len > output.content_len {
                    truncation = Some(
                        explain_truncation(output, context.max_scroll_history_lines),
                    );
                }
                match output.exit_status {
                    Some(status) => {
                        command_failed = command_finished && !status.success;
                        exit_code = Some(
                            match status.code {
                                Some(code) => code,
                                None => -1,
                            },
                        );
                    },
                    None => {},
                }
            },
            None => {},
        }
        let is_failed = tool_failed || command_failed;
        let exit_tooltip: Option<String> = match exit_code {
            Some(code) => if is_failed {
                Some(text::concat2("Exited with code ", text::signed(code).as_str()))
            } else {
                None
            },
            None => None,
        };
        let elapsed: Option<String> = if terminal.elapsed_ns > ELAPSED_TIME_THRESHOLD {
            Some(text::concat3("(", terminal.elapsed_text.as_str(), ")"))
        } else {
            None
        };
        let working_dir = match &terminal.working_dir {
            Some(path) => path.clone(),
            None => "current directory".to_owned(),
        };
        let confirmation = match &tool_call.status {
            ToolCallStatus::WaitingForConfirmation { options } => Some(
                self.render_confirmation(tool_call, options, entry_ix, context),
            ),
            _ => None,
        };
        let is_expanded = self.expanded_tool_calls.contains(&tool_call.id);
        let id = text::number(terminal.entity_id);
        TerminalCard {
            header_id: text::concat2("terminal-tool-header-", id.as_str()),
            header_group: text::concat2("terminal-tool-header-group-", id.as_str()),
            working_dir,
            header_text: tool_call.label.clone(),
            is_expanded,
            elapsed,
            is_running: !command_finished && !needs_confirmation,
            truncation,
            is_failed,
            exit_tooltip,
            has_card_border: layout == ToolCallLayout::Standalone,
            command: render_collapsible_command(false, tool_call.label.as_str()),
            shows_terminal: is_expanded && terminal.has_view,
            confirmation,
        }
    }

    /// The user has stopped a command. The generation is canceled with it where the setting
    /// says so; `thread` is the thread after that.
    pub fn stop_command(
        &mut self,
        cancel_generation_on_terminal_stop: bool,
        thread: &AcpThread,
    ) -> (r: Option<Cancellation>)
        ensures
            *final(self) == (if cancel_generation_on_terminal_stop {
                sending::canceled(*old(self), *thread)
            } else {
                *old(self)
            }),
            r == (if cancel_generation_on_terminal_stop {
                Some(
                    Cancellation { indicator: sending::thread_indicator(*old(self), *thread) },
                )
            } else {
                None
            }),
    {
        if cancel_generation_on_terminal_stop {
            Some(Cancellation { indicator: self.cancel_generation(thread) })
        } else {
            None
        }
    }

    /// Expands or collapses the content of a call.
    pub fn set_tool_call_expanded(&mut self, id: &ToolCallId, expanded: bool)
        ensures
            *final(self) == (ThreadView {
                expanded_tool_calls: final(self).expanded_tool_calls,
                ..*old(self)
            }),
            final(self).expanded_tool_calls@ == (if expanded {
                old(self).expanded_tool_calls@.insert(id.key())
            } else {
                old(self).expanded_tool_calls@.remove(id.key())
            }),
    {
        if expanded {
            self.expanded_tool_calls.insert(id.clone());
        } else {
            self.expanded_tool_calls.remove(id);
        }
    }
}

/// The text of a fenced command is the command itself.
pub proof fn unfencing_gives_the_command(command: Seq<char>)
    ensures
        unfenced("```\n"@ + command + "\n```"@) == command,
{
    let fence = "```\n"@;
    let end = "\n```"@;
    let source = fence + command + end;
    assert(source.take(fence.len() as int) =~= fence);
    let rest = source.skip(fence.len() as int);
    assert(rest =~= command + end);
    assert(rest.skip(rest.len() - end.len()) =~= end);
    assert(rest.take(rest.len() - end.len()) =~= command);
}

/// A command without fences on both sides is shown as it stands.
pub proof fn commands_without_fences_stay(source: Seq<char>)
    ensures
        !"```\n"@.is_prefix_of(source) ==> unfenced(source) == source,
        unfenced(source) == source || source == "```\n"@ + unfenced(source) + "\n```"@,
{
    let fence = "```\n"@;
    let end = "\n```"@;
    text::prefixes_and_suffixes_come_off(source, fence, source);
    if let Some(rest) = text::behind_prefix(source, fence) {
        assert(source.subrange(0, fence.len() as int) =~= fence);
        text::prefixes_and_suffixes_come_off(rest, end, rest);
        if let Some(command) = text::before_suffix(rest, end) {
            assert(source =~= fence + command + end);
        }
    }
}

/// A command that has not run is marked as such.
pub proof fn commands_are_marked_before_they_run(
    command: CommandView,
    source: Seq<char>,
    is_preview: bool,
)
    requires
        command_shows(command, source, is_preview),
    ensures
        command.command_text@ == unfenced(source),
        command.label is Some <==> is_preview,
        command.label matches Some(label) ==> label@ == "Run Command"@,
{
}

/// What can destroy is shown in the colour of a warning.
pub proof fn destroying_has_the_colour_of_a_warning(risk: ApprovalRisk)
    ensures
        card_risk_color(risk) == Color::Warning <==> risk == ApprovalRisk::PotentiallyDestructive,
        card_risk_color(risk) == Color::Success <==> risk == ApprovalRisk::ReadOnly,
{
}

/// The first call is the pending one, by its session and its identifier. What the user selected
/// for a call is what is kept under its identifier.
pub proof fn calls_are_found_by_session_and_identifier(
    view: ThreadView,
    call: ToolCall,
    context: CardContext,
)
    ensures
        context.pending is None ==> !is_first_call(view, call, context),
        context.pending matches Some((session_id, id)) ==> (is_first_call(view, call, context)
            <==> session_id@ == view.session_id@ && id.value@ == call.id.value@),
        selection_for(view, call) is Some <==> view.permission_selections@.dom().contains(
            call.id.value@,
        ),
        selection_for(view, call) matches Some(selection) ==> selection
            == view.permission_selections@[call.id.value@],
{
}

/// What is asked of the user names the risk of the call and has the buttons of its request, with
/// key bindings on the first request only.
pub proof fn confirmations_name_the_risk(
    confirmation: Confirmation,
    view: ThreadView,
    call: ToolCall,
    options: PermissionOptions,
    entry_ix: usize,
    context: CardContext,
)
    requires
        confirmation_shows(confirmation, view, call, options, entry_ix, context),
    ensures
        confirmation.risk_label@ == call.risk.risk.word(),
        confirmation.risk_color == Color::Warning <==> call.risk.risk
            == ApprovalRisk::PotentiallyDestructive,
        confirmation.buttons is Flat <==> options is Flat,
        match (confirmation.buttons, options) {
            (PermissionButtons::Flat(shown), PermissionOptions::Flat(offered)) => shown@.len()
                == offered@.len(),
            (PermissionButtons::Dropdown(shown), _) => shown.shows_key_bindings == is_first_call(
                view,
                call,
                context,
            ),
            _ => true,
        },
{
}

/// A command has finished once it has output and its call is over; it failed where it then
/// reported no success.
pub proof fn commands_finish_with_output(terminal: Terminal, call: ToolCall)
    ensures
        terminal.output is None ==> !command_finished(terminal, call) && !command_failed(
            terminal,
            call,
        ),
        call.status is Pending || call.status is InProgress ==> !command_finished(terminal, call),
        terminal.output is Some && !(call.status is Pending) && !(call.status is InProgress)
            ==> command_finished(terminal, call),
        command_failed(terminal, call) ==> command_finished(terminal, call),
        command_finished(terminal, call) ==> (command_failed(terminal, call)
            <==> terminal.output->0.exit_status is Some
            && !terminal.output->0.exit_status->0.success),
{
}

/// Output that was cut is explained: by the lines of the terminal where they ran out, else by
/// the tokens that it would have taken.
pub proof fn cut_output_is_explained(output: TerminalOutput, max_lines: u64)
    ensures
        output.content_line_count + 10 > max_lines ==> truncation_text(output, max_lines)
            == "Output exceeded terminal max lines and was truncated, the model received the first "@
            + output.content_size@ + "."@,
        output.content_line_count + 10 <= max_lines ==> truncation_text(output, max_lines)
            == "Output is "@ + output.original_size@
            + " long, and to avoid unexpected token usage, only "@ + output.content_size@
            + " was sent back to the agent."@,
{
}

/// The card of a command shows where it runs, what it runs and how it ended. It spins until the
/// command has finished, unless the user is asked; the time is shown after ten seconds, and the
/// terminal while the card is expanded.
pub proof fn the_card_of_a_command_shows_its_run(
    card: TerminalCard,
    view: ThreadView,
    terminal: Terminal,
    call: ToolCall,
    entry_ix: usize,
    layout: ToolCallLayout,
    context: CardContext,
    command: Seq<char>,
)
    requires
        terminal_card_shows(card, view, terminal, call, entry_ix, layout, context),
    ensures
        card.header_text@ == call.label@,
        card.header_id@ == "terminal-tool-header-"@ + text::decimal(terminal.entity_id as nat),
        call.label@ == "```\n"@ + command + "\n```"@ ==> card.command.command_text@ == command,
        card.command.label is None,
        terminal.working_dir matches Some(path) ==> card.working_dir@ == path@,
        terminal.working_dir is None ==> card.working_dir@ == "current directory"@,
        card.is_expanded <==> view.expanded_tool_calls@.contains(call.id.value@),
        card.shows_terminal <==> card.is_expanded && terminal.has_view,
        card.elapsed is Some <==> terminal.elapsed_ns > 10_000_000_000,
        card.elapsed matches Some(shown) ==> shown@ == seq!['('] + terminal.elapsed_text@ + seq![
            ')',
        ],
        call.status is WaitingForConfirmation ==> !card.is_running,
        terminal.output is None && !(call.status is WaitingForConfirmation) ==> card.is_running,
        call.status is Pending || call.status is InProgress ==> card.is_running,
        terminal.output is Some && !(call.status is Pending) && !(call.status is InProgress)
            ==> !card.is_running,
        card.truncation is Some <==> terminal.output is Some
            && terminal.output->0.original_content_len > terminal.output->0.content_len,
        call.status is Failed || call.status is Rejected || call.status is Canceled
            ==> card.is_failed,
        call.status is Completed ==> (card.is_failed <==> terminal.output is Some
            && terminal.output->0.exit_status is Some
            && !terminal.output->0.exit_status->0.success),
        call.status is Pending || call.status is InProgress ==> !card.is_failed,
        card.exit_tooltip is Some <==> card.is_failed && terminal.output is Some
            && terminal.output->0.exit_status is Some,
        card.exit_tooltip matches Some(tooltip) ==> tooltip@ == "Exited with code "@ + (
        match terminal.output->0.exit_status->0.code {
            Some(code) => text::signed_decimal(code as int),
            None => text::signed_decimal(-1),
        }),
        card.has_card_border <==> layout == ToolCallLayout::Standalone,
        card.confirmation is Some <==> call.status is WaitingForConfirmation,
{
    unfencing_gives_the_command(command);
    reveal_strlit("(");
    reveal_strlit(")");
    assert("("@ =~= seq!['(']);
    assert(")"@ =~= seq![')']);
}

/// The cards of terminals are kept apart by the identifiers of the terminals.
pub proof fn cards_of_terminals_are_kept_apart(
    card: TerminalCard,
    view: ThreadView,
    terminal: Terminal,
    call: ToolCall,
    entry_ix: usize,
    layout: ToolCallLayout,
    context: CardContext,
)
    requires
        terminal_card_shows(card, view, terminal, call, entry_ix, layout, context),
    ensures
        card.header_id@ == "terminal-tool-header-"@ + text::decimal(terminal.entity_id as nat),
        card.header_group@ == "terminal-tool-header-group-"@ + text::decimal(
            terminal.entity_id as nat,
        ),
{
}

} // verus!
