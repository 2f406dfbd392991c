//! The card of a tool call: its label, its output and what can be done with it.

use crate::code_layout::NumberedCodeBlock;
use crate::code_layout;
use crate::keyed::Keyed;
use crate::model::{
    ContentBlock, Diff, EntryContent, IconName, ImageFormat, AgentThreadEntry, Terminal, ToolCall,
    ToolCallContent, ToolCallId, ToolCallLocation, ToolCallStatus, ToolKind,
};
use crate::model;
use crate::terminal_card::{
    CardContext, CommandView, Confirmation, TerminalCard, ToolCallLayout,
};
use crate::terminal_card;
use crate::text;
use crate::thread_view::ThreadView;
use vstd::prelude::*;
use vstd::string::*;

verus! {

/// The icon before the label of a call.
pub enum ToolIcon {
    /// The icon of the file, or a pencil where the file has none.
    File { icon: Option<String>, is_interrupted: bool },
    /// The icon of the agent.
    Agent,
    Icon(IconName),
}

/// The label of a call.
pub struct ToolCallLabel {
    pub icon: ToolIcon,
    pub label: String,
    /// Whether a click on the label goes to the file.
    pub is_link: bool,
    pub has_padding: bool,
    pub text_is_muted: bool,
    pub has_gradient: bool,
}

/// A piece of output that is a link.
pub struct ResourceLinkView {
    pub button_id: String,
    pub label: String,
    /// Whether the link leads out of the editor.
    pub is_external: bool,
    pub uri: String,
}

/// A piece of output that is Markdown.
pub struct MarkdownOutput {
    pub numbered: Option<NumberedCodeBlock>,
    pub markdown: String,
    pub is_card: bool,
    pub has_separator: bool,
}

/// A piece of output that is an image.
pub struct ImageOutput {
    pub label: String,
    pub is_card: bool,
    /// Whether there is a button that goes to the file.
    pub has_go_to_file: bool,
}

/// What the place of a diff shows.
#[derive(Clone, Copy, PartialEq, Eq, Structural, Debug)]
pub enum DiffBody {
    Editor,
    Loading,
    Nothing,
}

/// A piece of output that is a diff.
#[derive(Clone, Copy, PartialEq, Eq, Structural, Debug)]
pub struct DiffOutput {
    pub has_top_border: bool,
    pub is_dashed: bool,
    pub body: DiffBody,
}

/// A piece of output of a call.
pub enum ContentView {
    Nothing,
    ResourceLink(ResourceLinkView),
    Markdown(MarkdownOutput),
    Image(ImageOutput),
    Diff(DiffOutput),
    Terminal(TerminalCard),
}

/// The raw input of a call that waits for an answer.
pub struct RawInput {
    pub header: &'static str,
    pub is_expanded: bool,
    pub markdown: Option<String>,
}

/// What stands below the header of an open card.
pub enum ToolCallOutput {
    Nothing,
    DiffLoading,
    Confirmation { content: Vec<ContentView>, raw_input: Option<RawInput>, confirmation: Confirmation },
    Output {
        content: Vec<ContentView>,
        shows_raw_input: bool,
        /// The raw input between the headers "Raw Input:" and "Output:".
        raw_input_markdown: Option<String>,
        has_collapse_button: bool,
    },
}

/// The sign of a call that did not end well.
#[derive(Clone, Copy, PartialEq, Eq, Structural, Debug)]
pub enum FailureSign {
    InterruptedEdit,
    Failed,
}

/// What can be done with a call from its header.
#[derive(Clone, Copy, PartialEq, Eq, Structural, Debug)]
pub struct HeaderControls {
    /// The button that opens or closes the card, and whether the card is open.
    pub disclosure: Option<bool>,
    pub failure: Option<FailureSign>,
    /// Whether an interrupted edit can be discarded.
    pub offers_discard: bool,
    /// Whether there is a button that opens the file.
    pub offers_open_file: bool,
}

/// The header of a card.
pub enum ToolCallHeader {
    Command(CommandView),
    Label { label: ToolCallLabel, has_card_background: bool, controls: HeaderControls },
}

/// The frame of a card.
#[derive(Clone, Copy, PartialEq, Eq, Structural, Debug)]
pub enum CardFrame {
    Embedded,
    Card { is_dashed: bool },
    Plain,
}

/// The left margin of a card that stands on its own.
#[derive(Clone, Copy, PartialEq, Eq, Structural, Debug)]
pub enum CardMargin {
    Nothing,
    Small,
    Regular,
}

/// The card of a call.
pub struct ToolCallCard {
    pub frame: CardFrame,
    pub margin: CardMargin,
    pub header: ToolCallHeader,
    pub output: Option<ToolCallOutput>,
}

/// Whether the call edits a file.
pub open spec fn is_edit(call: ToolCall) -> bool {
    call.kind == ToolKind::Edit || model::first_diff(call.content@) is Some
}

/// Whether the call is drawn as a card.
pub open spec fn uses_card(call: ToolCall) -> bool {
    call.status is WaitingForConfirmation || is_edit(call) || call.kind == ToolKind::Execute
}

/// Whether the raw input of the call is of interest.
pub open spec fn shows_raw_input(call: ToolCall) -> bool {
    &&& call.kind != ToolKind::Execute
    &&& !is_edit(call)
    &&& !exists|i: int| 0 <= i < call.content@.len() && model::is_image(#[trigger] call.content@[i])
}

/// Whether the first diff of the call has an editor and shows a range.
pub open spec fn has_revealed_diff(call: ToolCall) -> bool {
    model::first_diff(call.content@) matches Some(diff) && diff.editor_focus is Some
        && diff.has_revealed_range
}

/// Whether the editor of the first diff of the call has the focus.
pub open spec fn output_has_focus(call: ToolCall) -> bool {
    model::first_diff(call.content@) matches Some(diff) && diff.editor_focus == Some(true)
}

/// Whether the card of the call is open.
pub open spec fn is_open(view: ThreadView, call: ToolCall) -> bool {
    view.expanded_tool_calls@.contains(call.id.key()) || call.status is WaitingForConfirmation
}

/// The icon for a kind of tool.
pub open spec fn kind_icon(kind: ToolKind) -> IconName {
    match kind {
        ToolKind::Read => IconName::ToolSearch,
        ToolKind::Edit => IconName::ToolPencil,
        ToolKind::Delete => IconName::ToolDeleteFile,
        ToolKind::Move => IconName::ArrowRightLeft,
        ToolKind::Search => IconName::ToolSearch,
        ToolKind::Execute => IconName::ToolTerminal,
        ToolKind::Think => IconName::ToolThink,
        ToolKind::Fetch => IconName::ToolWeb,
        ToolKind::SwitchMode => IconName::ArrowRightLeft,
        ToolKind::Other => IconName::ToolHammer,
    }
}

/// What the label of a call shows.
pub open spec fn label_shows(
    label: ToolCallLabel,
    call: ToolCall,
    is_edit: bool,
    has_failed: bool,
    has_revealed_diff: bool,
    use_card_layout: bool,
    file_icon: Option<&str>,
) -> bool {
    let has_location = call.locations@.len() == 1;
    &&& match label.icon {
        ToolIcon::File { icon, is_interrupted } => {
            &&& call.kind == ToolKind::Edit && has_location
            &&& text::optional_view(icon) == text::reference_view(file_icon)
            &&& is_interrupted == (has_failed && has_revealed_diff)
        },
        ToolIcon::Agent => !(call.kind == ToolKind::Edit && has_location) && call.is_subagent,
        ToolIcon::Icon(icon) => {
            &&& !(call.kind == ToolKind::Edit && has_location)
            &&& !call.is_subagent
            &&& icon == kind_icon(call.kind)
        },
    }
    &&& label.label@ == call.label@
    &&& label.is_link == has_location
    &&& label.has_padding == (has_location || use_card_layout)
    &&& label.text_is_muted == !(has_location && use_card_layout)
    &&& label.has_gradient == !is_edit
}

/// The label of a call.
pub fn render_tool_call_label(
    tool_call: &ToolCall,
    is_edit: bool,
    has_failed: bool,
    has_revealed_diff: bool,
    use_card_layout: bool,
    file_icon: Option<&str>,
) -> (r: ToolCallLabel)
    ensures
        label_shows(
            r,
            *tool_call,
            is_edit,
            has_failed,
            has_revealed_diff,
            use_card_layout,
            file_icon,
        ),
{
    let has_location = tool_call.locations.len() == 1;
    let is_file = tool_call.kind == ToolKind::Edit && has_location;
    let icon = if is_file {
        let icon: Option<String> = match file_icon {
            Some(path) => Some(path.to_owned()),
            None => None,
        };
        ToolIcon::File { icon, is_interrupted: has_failed && has_revealed_diff }
    } else if tool_call.is_subagent {
        ToolIcon::Agent
    } else {
        ToolIcon::Icon(
            match tool_call.kind {
                ToolKind::Read => IconName::ToolSearch,
                ToolKind::Edit => IconName::ToolPencil,
                ToolKind::Delete => IconName::ToolDeleteFile,
                ToolKind::Move => IconName::ArrowRightLeft,
                ToolKind::Search => IconName::ToolSearch,
                ToolKind::Execute => IconName::ToolTerminal,
                ToolKind::Think => IconName::ToolThink,
                ToolKind::Fetch => IconName::ToolWeb,
                ToolKind::SwitchMode => IconName::ArrowRightLeft,
                ToolKind::Other => IconName::ToolHammer,
            },
        )
    };
    ToolCallLabel {
        icon,
        label: tool_call.label.clone(),
        is_link: has_location,
        has_padding: has_location || use_card_layout,
        text_is_muted: !(has_location && use_card_layout),
        has_gradient: !is_edit,
    }
}

/// The label of a link: the path of a file, in its project where it is in one, else the whole
/// link.
pub open spec fn link_label(uri: Seq<char>, project_path: Option<String>) -> Seq<char> {
    match text::behind_prefix(uri, "file://"@) {
        Some(path) => text::text_or(project_path, path),
        None => uri,
    }
}

/// What a link shows.
pub open spec fn link_shows(
    link: ResourceLinkView,
    uri: Seq<char>,
    project_path: Option<String>,
) -> bool {
    &&& link.button_id@ == "item-"@ + uri
    &&& link.label@ == link_label(uri, project_path)
    &&& link.is_external == (text::behind_prefix(uri, "file://"@) is None)
    &&& link.uri@ == uri
}

/// A piece of output that is a link. Nothing is shown without a project.
pub fn render_resource_link(uri: &str, project_path: &Option<String>, has_project: bool) -> (r:
    Option<ResourceLinkView>)
    ensures
        r is Some <==> has_project,
        r matches Some(link) ==> link_shows(link, uri@, *project_path),
{
    if !has_project {
        return None;
    }
    let path = text::strip_prefix(uri, "file://");
    let label = match path {
        Some(path) => match project_path {
            Some(project_path) => project_path.clone(),
            None => path.to_owned(),
        },
        None => uri.to_owned(),
    };
    Some(
        ResourceLinkView {
            button_id: text::concat2("item-", uri),
            label,
            is_external: path.is_none(),
            uri: uri.to_owned(),
        },
    )
}

/// The name of an image format.
pub open spec fn format_word(format: ImageFormat) -> Seq<char> {
    match format {
        ImageFormat::Png => "PNG"@,
        ImageFormat::Jpeg => "JPEG"@,
        ImageFormat::Webp => "WebP"@,
        ImageFormat::Gif => "GIF"@,
        ImageFormat::Svg => "SVG"@,
        ImageFormat::Bmp => "BMP"@,
        ImageFormat::Tiff => "TIFF"@,
        ImageFormat::Ico => "ICO"@,
        ImageFormat::Pnm => "PNM"@,
    }
}

/// The label of an image: its size, where it is known, and its format.
pub open spec fn image_label(format: ImageFormat, dimensions: Option<(u32, u32)>) -> Seq<char> {
    match dimensions {
        Some((width, height)) => text::decimal(width as nat) + "×"@ + text::decimal(height as nat)
            + " "@ + format_word(format),
        None => format_word(format),
    }
}

/// A piece of output that is an image.
pub fn render_image_output(
    format: ImageFormat,
    dimensions: Option<(u32, u32)>,
    location: Option<&ToolCallLocation>,
    card_layout: bool,
) -> (r: ImageOutput)
    ensures
        r.label@ == image_label(format, dimensions),
        r.is_card == card_layout,
        r.has_go_to_file == (location is Some),
{
    let format_name: &'static str = match format {
        ImageFormat::Png => "PNG",
        ImageFormat::Jpeg => "JPEG",
        ImageFormat::Webp => "WebP",
        ImageFormat::Gif => "GIF",
        ImageFormat::Svg => "SVG",
        ImageFormat::Bmp => "BMP",
        ImageFormat::Tiff => "TIFF",
        ImageFormat::Ico => "ICO",
        ImageFormat::Pnm => "PNM",
    };
    let label = match dimensions {
        Some((width, height)) => {
            let mut label = text::number(width as u64);
            label.append("×");
            label.append(text::number(height as u64).as_str());
            label.append(" ");
            label.append(format_name);
            label
        },
        None => format_name.to_owned(),
    };
    ImageOutput { label, is_card: card_layout, has_go_to_file: location.is_some() }
}

/// What the place of a diff shows: its editor, where it has one and shows a range; else that
/// the agent is at work on it.
pub open spec fn diff_output(
    diff: Diff,
    status: ToolCallStatus,
    has_failed: bool,
    is_native_connection: bool,
) -> DiffOutput {
    let is_revealed = diff.editor_focus is Some && diff.has_revealed_range;
    DiffOutput {
        has_top_border: !has_failed || is_revealed,
        is_dashed: has_failed && is_revealed,
        body: if is_revealed {
            DiffBody::Editor
        } else if status.under_way() && is_native_connection {
            DiffBody::Loading
        } else {
            DiffBody::Nothing
        },
    }
}

/// A piece of output that is a diff.
pub fn render_diff_editor(
    diff: &Diff,
    tool_call: &ToolCall,
    has_failed: bool,
    is_native_connection: bool,
) -> (r: DiffOutput)
    ensures
        r == diff_output(*diff, tool_call.status, has_failed, is_native_connection),
{
    let is_revealed = diff.editor_focus.is_some() && diff.has_revealed_range;
    let has_top_border = !has_failed || is_revealed;
    DiffOutput {
        has_top_border,
        is_dashed: has_top_border && has_failed,
        body: if is_revealed {
            DiffBody::Editor
        } else if tool_call.status.is_under_way() && is_native_connection {
            DiffBody::Loading
        } else {
            DiffBody::Nothing
        },
    }
}

/// A piece of output that is Markdown.
pub fn render_markdown_output(
    markdown: &str,
    entry_ix: usize,
    context_ix: usize,
    tool_call: &ToolCall,
    card_layout: bool,
) -> (r: MarkdownOutput)
    ensures
        code_layout::numbered_output_is(r.numbered, markdown@, entry_ix, context_ix, *tool_call),
        r.markdown@ == markdown@,
        r.is_card == card_layout,
        r.has_separator == (card_layout && context_ix > 0),
{
    MarkdownOutput {
        numbered: code_layout::render_numbered_read_file_output(
            markdown,
            entry_ix,
            context_ix,
            tool_call,
        ),
        markdown: markdown.to_owned(),
        is_card: card_layout,
        has_separator: card_layout && context_ix > 0,
    }
}

/// What a piece of output of a call shows.
pub open spec fn content_shows(
    shown: ContentView,
    view: ThreadView,
    content: ToolCallContent,
    context_ix: usize,
    call: ToolCall,
    entry_ix: usize,
    card_layout: bool,
    has_failed: bool,
    context: CardContext,
) -> bool {
    match content {
        ToolCallContent::ContentBlock(ContentBlock::Empty) => shown is Nothing,
        ToolCallContent::ContentBlock(ContentBlock::ResourceLink { uri, project_path }) =>
            if context.has_project {
                shown matches ContentView::ResourceLink(link) && link_shows(
                    link,
                    uri@,
                    project_path,
                )
            } else {
                shown is Nothing
            },
        ToolCallContent::ContentBlock(ContentBlock::Markdown { source }) => shown matches
            ContentView::Markdown(output) && {
            &&& code_layout::numbered_output_is(
                output.numbered,
                source@,
                entry_ix,
                context_ix,
                call,
            )
            &&& output.markdown@ == source@
            &&& output.is_card == card_layout
            &&& output.has_separator == (card_layout && context_ix > 0)
        },
        ToolCallContent::ContentBlock(ContentBlock::Image { format, dimensions }) => shown matches
            ContentView::Image(output) && {
            &&& output.label@ == image_label(format, dimensions)
            &&& output.is_card == card_layout
            &&& output.has_go_to_file == (call.locations@.len() > 0)
        },
        ToolCallContent::Diff(diff) => shown == ContentView::Diff(
            diff_output(diff, call.status, has_failed, context.is_native_connection),
        ),
        ToolCallContent::Terminal(terminal) => shown matches ContentView::Terminal(card)
            && terminal_card::terminal_card_shows(
            card,
            view,
            terminal,
            call,
            entry_ix,
            ToolCallLayout::Standalone,
            context,
        ),
    }
}

/// What the pieces of output of a call show.
pub open spec fn contents_show(
    shown: Seq<ContentView>,
    view: ThreadView,
    call: ToolCall,
    entry_ix: usize,
    card_layout: bool,
    has_failed: bool,
    context: CardContext,
) -> bool {
    &&& shown.len() == call.content@.len()
    &&& forall|i: int|
        #![trigger shown[i]]
        0 <= i < shown.len() ==> content_shows(
            shown[i],
            view,
            call.content@[i],
            i as usize,
            call,
            entry_ix,
            card_layout,
            has_failed,
            context,
        )
}

/// Whether the number of lines of a terminal leaves room for the lines that are added to it.
pub open spec fn is_countable(content: ToolCallContent) -> bool {
    content matches ToolCallContent::Terminal(terminal) ==> terminal.output matches Some(output)
        ==> output.content_line_count + 10 <= u64::MAX
}

/// Whether the numbers of lines of the terminals of a call leave room for the lines that are
/// added to them.
pub open spec fn has_countable_lines(call: ToolCall) -> bool {
    forall|i: int| 0 <= i < call.content@.len() ==> is_countable(#[trigger] call.content@[i])
}

/// What the raw input of a call that waits for an answer shows.
pub open spec fn raw_input_shows(
    raw_input: Option<RawInput>,
    view: ThreadView,
    call: ToolCall,
) -> bool {
    let is_expanded = view.expanded_tool_call_raw_inputs@.contains(call.id.key());
    match raw_input {
        Some(raw_input) => {
            &&& shows_raw_input(call)
            &&& raw_input.is_expanded == is_expanded
            &&& raw_input.header@ == (if is_expanded {
                "Raw Input:"@
            } else {
                "View Raw Input"@
            })
            &&& text::optional_view(raw_input.markdown) == (if is_expanded {
                text::optional_view(call.raw_input_markdown)
            } else {
                None
            })
        },
        None => !shows_raw_input(call),
    }
}

/// What stands below the header of an open card.
pub open spec fn output_shows(
    output: ToolCallOutput,
    view: ThreadView,
    call: ToolCall,
    entry_ix: usize,
    context: CardContext,
) -> bool {
    match call.status {
        ToolCallStatus::WaitingForConfirmation { options } => output matches
            ToolCallOutput::Confirmation { content, raw_input, confirmation } && {
            &&& contents_show(
                content@,
                view,
                call,
                entry_ix,
                uses_card(call),
                call.status.ended_badly(),
                context,
            )
            &&& raw_input_shows(raw_input, view, call)
            &&& terminal_card::confirmation_shows(
                confirmation,
                view,
                call,
                options,
                entry_ix,
                context,
            )
        },
        ToolCallStatus::Rejected => output is Nothing,
        _ => if call.status.under_way() && is_edit(call) && call.content@.len() == 0
            && context.is_native_connection {
            output is DiffLoading
        } else {
            output matches ToolCallOutput::Output {
                content,
                shows_raw_input,
                raw_input_markdown,
                has_collapse_button,
            } && {
                &&& contents_show(
                    content@,
                    view,
                    call,
                    entry_ix,
                    uses_card(call),
                    call.status.ended_badly(),
                    context,
                )
                &&& shows_raw_input == self::shows_raw_input(call)
                &&& text::optional_view(raw_input_markdown) == (if shows_raw_input {
                    text::optional_view(call.raw_input_markdown)
                } else {
                    None
                })
                &&& has_collapse_button == !uses_card(call)
            }
        },
    }
}

/// What can be done with a call from its header.
pub open spec fn header_controls(view: ThreadView, call: ToolCall) -> HeaderControls {
    let is_cancelled_edit = is_edit(call) && call.status is Canceled;
    HeaderControls {
        disclosure: if call.content@.len() > 0 && !(call.status is WaitingForConfirmation) {
            Some(is_open(view, call))
        } else {
            None
        },
        failure: if !call.status.ended_badly() {
            None
        } else if !is_cancelled_edit {
            Some(FailureSign::Failed)
        } else if !has_revealed_diff(call) {
            Some(FailureSign::InterruptedEdit)
        } else {
            None
        },
        offers_discard: is_cancelled_edit && has_revealed_diff(call)
            && !view.discarded_partial_edits@.contains(call.id.key()),
        offers_open_file: output_has_focus(call),
    }
}

/// What the header of a card shows.
pub open spec fn tool_header_shows(
    header: ToolCallHeader,
    view: ThreadView,
    call: ToolCall,
    context: CardContext,
) -> bool {
    if call.kind == ToolKind::Execute {
        header matches ToolCallHeader::Command(command) && terminal_card::command_shows(
            command,
            call.label@,
            true,
        )
    } else {
        header matches ToolCallHeader::Label { label, has_card_background, controls } && {
            &&& label_shows(
                label,
                call,
                is_edit(call),
                is_edit(call) && call.status is Canceled,
                has_revealed_diff(call),
                uses_card(call),
                context.file_icon,
            )
            &&& has_card_background == uses_card(call)
            &&& controls == header_controls(view, call)
        }
    }
}

/// The frame of the card of a call.
pub open spec fn card_frame(call: ToolCall, layout: ToolCallLayout) -> CardFrame {
    if layout == ToolCallLayout::Embedded {
        CardFrame::Embedded
    } else if uses_card(call) {
        CardFrame::Card { is_dashed: call.status.ended_badly() }
    } else {
        CardFrame::Plain
    }
}

/// The left margin of the card of a call.
pub open spec fn card_margin(call: ToolCall, layout: ToolCallLayout) -> CardMargin {
    if layout == ToolCallLayout::Embedded {
        CardMargin::Nothing
    } else if call.locations@.len() == 1 && !uses_card(call) {
        CardMargin::Small
    } else {
        CardMargin::Regular
    }
}

/// What the card of a call shows.
pub open spec fn tool_call_shows(
    card: ToolCallCard,
    view: ThreadView,
    call: ToolCall,
    entry_ix: usize,
    layout: ToolCallLayout,
    context: CardContext,
) -> bool {
    &&& card.frame == card_frame(call, layout)
    &&& card.margin == card_margin(call, layout)
    &&& tool_header_shows(card.header, view, call, context)
    &&& card.output is Some <==> is_open(view, call)
    &&& card.output matches Some(output) ==> output_shows(output, view, call, entry_ix, context)
}

/// The location of a call that the user goes to: one where the agent is tracked.
pub open spec fn location_at(
    entries: Seq<AgentThreadEntry>,
    entry_ix: int,
    location_ix: int,
) -> Option<ToolCallLocation> {
    if 0 <= entry_ix < entries.len() {
        match entries[entry_ix].content {
            EntryContent::ToolCall(call) => if 0 <= location_ix < call.locations@.len()
                && call.locations@[location_ix].agent_position is Some {
                Some(call.locations@[location_ix])
            } else {
                None
            },
            _ => None,
        }
    } else {
        None
    }
}

/// The location of a call whose file is opened for the user, where the call has that location
/// and the agent is tracked there.
pub fn open_tool_call_location(
    entries: &Vec<AgentThreadEntry>,
    entry_ix: usize,
    location_ix: usize,
) -> (r: Option<&ToolCallLocation>)
    ensures
        match r {
            Some(location) => Some(*location) == location_at(
                entries@,
                entry_ix as int,
                location_ix as int,
            ),
            None => location_at(entries@, entry_ix as int, location_ix as int) is None,
        },
{
    if entry_ix >= entries.len() {
        return None;
    }
    match &entries[entry_ix].content {
        EntryContent::ToolCall(call) => {
            if location_ix >= call.locations.len() {
                return None;
            }
            let location = &call.locations[location_ix];
            if location.agent_position.is_some() {
                Some(location)
            } else {
                None
            }
        },
        _ => None,
    }
}

/// Where the cursor goes in a file.
#[derive(Clone, Copy, PartialEq, Eq, Structural, Debug)]
pub enum CursorTarget {
    /// The place in the file that an editor knows under this number.
    Anchor(u64),
    /// The start of a row.
    Row(u32),
}

/// Where the cursor goes once the file of a location is open: to the position of the agent,
/// where the editor shows a single file and finds the position in it. Else to the row that
/// the call has reported, or to the first one where it has reported none.
pub fn location_cursor(
    location: &ToolCallLocation,
    is_single_file: bool,
    position_in_file: Option<u64>,
) -> (r: CursorTarget)
    ensures
        r == (match position_in_file {
            Some(anchor) if is_single_file => CursorTarget::Anchor(anchor),
            _ => CursorTarget::Row(
                match location.line {
                    Some(line) => line,
                    None => 0,
                },
            ),
        }),
{
    if is_single_file {
        if let Some(anchor) = position_in_file {
            return CursorTarget::Anchor(anchor);
        }
    }
    match location.line {
        Some(line) => CursorTarget::Row(line),
        None => CursorTarget::Row(0),
    }
}

impl ThreadView {
    /// A piece of output of a call.
    pub fn render_tool_call_content(
        &self,
        entry_ix: usize,
        content: &ToolCallContent,
        context_ix: usize,
        tool_call: &ToolCall,
        card_layout: bool,
        has_failed: bool,
        context: &CardContext,
    ) -> (r: ContentView)
        requires
            is_countable(*content),
        ensures
            content_shows(
                r,
                *self,
                *content,
                context_ix,
                *tool_call,
                entry_ix,
                card_layout,
                has_failed,
                *context,
            ),
    {
        match content {
            ToolCallContent::ContentBlock(block) => match block {
                ContentBlock::Empty => ContentView::Nothing,
                ContentBlock::ResourceLink { uri, project_path } => match render_resource_link(
                    uri.as_str(),
                    project_path,
                    context.has_project,
                ) {
                    Some(link) => ContentView::ResourceLink(link),
                    None => ContentView::Nothing,
                },
                ContentBlock::Markdown { source } => ContentView::Markdown(
                    render_markdown_output(
                        source.as_str(),
                        entry_ix,
                        context_ix,
                        tool_call,
                        card_layout,
                    ),
                ),
                ContentBlock::Image { format, dimensions } => {
                    let location = if tool_call.locations.len() > 0 {
                        Some(&tool_call.locations[0])
                    } else {
                        None
                    };
                    ContentView::Image(
                        render_image_output(*format, *dimensions, location, card_layout),
                    )
                },
            },
            ToolCallContent::Diff(diff) => ContentView::Diff(
                render_diff_editor(diff, tool_call, has_failed, context.is_native_connection),
            ),
            ToolCallContent::Terminal(terminal) => ContentView::Terminal(
                self.render_terminal_tool_call(
                    entry_ix,
                    terminal,
                    tool_call,
                    ToolCallLayout::Standalone,
                    context,
                ),
            ),
        }
    }

    fn render_contents(
        &self,
        entry_ix: usize,
        tool_call: &ToolCall,
        card_layout: bool,
        has_failed: bool,
        context: &CardContext,
    ) -> (r: Vec<ContentView>)
        requires
            has_countable_lines(*tool_call),
        ensures
            contents_show(
                r@,
                *self,
                *tool_call,
                entry_ix,
                card_layout,
                has_failed,
                *context,
            ),
    {
        let mut shown: Vec<ContentView> = Vec::new();
        let mut i: usize = 0;
        while i < tool_call.content.len()
            invariant
                i <= tool_call.content@.len(),
                shown@.len() == i,
                has_countable_lines(*tool_call),
                forall|j: int|
                    #![trigger shown@[j]]
                    0 <= j < i ==> content_shows(
                        shown@[j],
                        *self,
                        tool_call.content@[j],
                        j as usize,
                        *tool_call,
                        entry_ix,
                        card_layout,
                        has_failed,
                        *context,
                    ),
            decreases tool_call.content@.len() - i,
        {
            let content = &tool_call.content[i];
            assert(is_countable(tool_call.content@[i as int]));
            shown.push(
                self.render_tool_call_content(
                    entry_ix,
                    content,
                    i,
                    tool_call,
                    card_layout,
                    has_failed,
                    context,
                ),
            );
            i = i + 1;
        }
        shown
    }

    fn render_output(
        &self,
        entry_ix: usize,
        tool_call: &ToolCall,
        is_edit: bool,
        use_card_layout: bool,
        should_show_raw_input: bool,
        context: &CardContext,
    ) -> (r: ToolCallOutput)
        requires
            has_countable_lines(*tool_call),
            is_edit == self::is_edit(*tool_call),
            use_card_layout == uses_card(*tool_call),
            should_show_raw_input == shows_raw_input(*tool_call),
        ensures
            output_shows(r, *self, *tool_call, entry_ix, *context),
    {
        let has_failed = tool_call.status.is_ended_badly();
        match &tool_call.status {
            ToolCallStatus::WaitingForConfirmation { options } => {
                let raw_input = if should_show_raw_input {
                    let is_expanded = self.expanded_tool_call_raw_inputs.contains(&tool_call.id);
                    let (header, markdown): (&'static str, Option<String>) = if is_expanded {
                        ("Raw Input:", text::copy_option(&tool_call.raw_input_markdown))
                    } else {
                        ("View Raw Input", None)
                    };
                    Some(RawInput { header, is_expanded, markdown })
                } else {
                    None
                };
                ToolCallOutput::Confirmation {
                    content: self.render_contents(
                        entry_ix,
                        tool_call,
                        use_card_layout,
                        has_failed,
                        context,
                    ),
                    raw_input,
                    confirmation: self.render_confirmation(tool_call, options, entry_ix, context),
                }
            },
            ToolCallStatus::Rejected => ToolCallOutput::Nothing,
            _ => {
                if tool_call.status.is_under_way() && is_edit && tool_call.content.len() == 0
                    && context.is_native_connection {
                    return ToolCallOutput::DiffLoading;
                }
                let raw_input_markdown = if should_show_raw_input {
                    text::copy_option(&tool_call.raw_input_markdown)
                } else {
                    None
                };
                ToolCallOutput::Output {
                    content: self.render_contents(
                        entry_ix,
                        tool_call,
                        use_card_layout,
                        has_failed,
                        context,
                    ),
                    shows_raw_input: should_show_raw_input,
                    raw_input_markdown,
                    has_collapse_button: !use_card_layout,
                }
            },
        }
    }

    /// The card of a call.
    pub fn render_tool_call(
        &self,
        entry_ix: usize,
        tool_call: &ToolCall,
        layout: ToolCallLayout,
        context: &CardContext,
    ) -> (r: ToolCallCard)
        requires
            has_countable_lines(*tool_call),
        ensures
            tool_call_shows(r, *self, *tool_call, entry_ix, layout, *context),
    {
        let has_location = tool_call.locations.len() == 1;
        let failed_or_canceled = tool_call.status.is_ended_badly();
        let needs_confirmation = tool_call.status.is_waiting();
        let is_terminal_tool = tool_call.kind == ToolKind::Execute;
        let diff = tool_call.first_diff();
        let is_edit = tool_call.kind == ToolKind::Edit || diff.is_some();
        let is_cancelled_edit = is_edit && matches!(&tool_call.status, ToolCallStatus::Canceled);
        let (has_revealed_diff, output_focus) = match diff {
            Some(diff) => match diff.editor_focus {
                Some(focus) => (diff.has_revealed_range, focus),
                None => (false, false),
            },
            None => (false, false),
        };
        let use_card_layout = needs_confirmation || is_edit || is_terminal_tool;
        let is_collapsible = tool_call.content.len() > 0 && !needs_confirmation;
        let is_open = self.expanded_tool_calls.contains(&tool_call.id) || needs_confirmation;
        let should_show_raw_input = !is_terminal_tool && !is_edit && !tool_call.has_image();
        let output = if is_open {
            Some(
                self.render_output(
                    entry_ix,
                    tool_call,
                    is_edit,
                    use_card_layout,
                    should_show_raw_input,
                    context,
                ),
            )
        } else {
            None
        };
        let frame = if layout == ToolCallLayout::Embedded {
            CardFrame::Embedded
        } else if use_card_layout {
            CardFrame::Card { is_dashed: failed_or_canceled }
        } else {
            CardFrame::Plain
        };
        let margin = if layout != ToolCallLayout::Standalone {
            CardMargin::Nothing
        } else if has_location && !use_card_layout {
            CardMargin::Small
        } else {
            CardMargin::Regular
        };
        let header = if is_terminal_tool {
            ToolCallHeader::Command(
                terminal_card::render_collapsible_command(true, tool_call.label.as_str()),
            )
        } else {
            let failure = if !failed_or_canceled {
                None
            } else if is_cancelled_edit && !has_revealed_diff {
                Some(FailureSign::InterruptedEdit)
            } else if is_cancelled_edit {
                None
            } else {
                Some(FailureSign::Failed)
            };
            let controls = HeaderControls {
                disclosure: if is_collapsible {
                    Some(is_open)
                } else {
                    None
                },
                failure,
                offers_discard: has_revealed_diff && is_cancelled_edit
                    && !self.discarded_partial_edits.contains(&tool_call.id),
                offers_open_file: output_focus,
            };
            ToolCallHeader::Label {
                label: render_tool_call_label(
                    tool_call,
                    is_edit,
                    is_cancelled_edit,
                    has_revealed_diff,
                    use_card_layout,
                    context.file_icon,
                ),
                has_card_background: use_card_layout,
                controls,
            }
        };
        ToolCallCard { frame, margin, header, output }
    }

    /// Expands or collapses the raw input of a call.
    pub fn toggle_raw_input(&mut self, id: &ToolCallId)
        ensures
            *final(self) == (ThreadView {
                expanded_tool_call_raw_inputs: final(self).expanded_tool_call_raw_inputs,
                ..*old(self)
            }),
            final(self).expanded_tool_call_raw_inputs@ == (if old(
                self,
            ).expanded_tool_call_raw_inputs@.contains(id.key()) {
                old(self).expanded_tool_call_raw_inputs@.remove(id.key())
            } else {
                old(self).expanded_tool_call_raw_inputs@.insert(id.key())
            }),
    {
        if self.expanded_tool_call_raw_inputs.contains(id) {
            self.expanded_tool_call_raw_inputs.remove(id);
        } else {
            self.expanded_tool_call_raw_inputs.insert(id.clone());
        }
    }

    /// Remembers that the interrupted edit of a call was discarded.
    pub fn discard_partial_edit(&mut self, id: &ToolCallId)
        ensures
            *final(self) == (ThreadView {
                discarded_partial_edits: final(self).discarded_partial_edits,
                ..*old(self)
            }),
            final(self).discarded_partial_edits@ == old(self).discarded_partial_edits@.insert(
                id.key(),
            ),
    {
        self.discarded_partial_edits.insert(id.clone());
    }
}

/// A call that waits for an answer is always open and cannot be closed.
pub proof fn waiting_calls_stay_open(view: ThreadView, call: ToolCall)
    requires
        call.status is WaitingForConfirmation,
    ensures
        is_open(view, call),
        header_controls(view, call).disclosure is None,
        uses_card(call),
{
}

/// Only an interrupted edit with a diff can be discarded, and only once.
pub proof fn discarding_is_for_interrupted_edits(view: ThreadView, call: ToolCall)
    ensures
        header_controls(view, call).offers_discard ==> call.status is Canceled && is_edit(call)
            && has_revealed_diff(call) && header_controls(view, call).failure is None,
        view.discarded_partial_edits@.contains(call.id.key()) ==> !header_controls(
            view,
            call,
        ).offers_discard,
{
}

/// Whatever the status of the call and the connection: a diff that has an editor and shows a
/// range is shown in its editor, and a diff without one never is. While a native agent is at
/// work, such a diff is loading.
pub proof fn a_revealed_diff_is_shown_in_its_editor(
    diff: Diff,
    status: ToolCallStatus,
    has_failed: bool,
    is_native_connection: bool,
)
    ensures
        ({
            let shown = diff_output(diff, status, has_failed, is_native_connection);
            let is_revealed = diff.editor_focus is Some && diff.has_revealed_range;
            &&& shown.body is Editor <==> is_revealed
            &&& shown.body is Loading <==> !is_revealed && is_native_connection && (status is Pending
                || status is InProgress)
            &&& shown.is_dashed <==> has_failed && shown.body is Editor
            &&& shown.has_top_border <==> !has_failed || shown.body is Editor
        }),
{
}

/// A call is an edit by its kind or by a diff in its output. A call that waits, an edit and a
/// command have a card; the raw input is of interest for the others, unless they give an image.
pub proof fn edits_and_commands_have_cards(call: ToolCall)
    ensures
        is_edit(call) <==> call.kind == ToolKind::Edit || exists|i: int|
            0 <= i < call.content@.len() && (#[trigger] call.content@[i]) is Diff,
        uses_card(call) <==> call.status is WaitingForConfirmation || call.kind == ToolKind::Execute
            || call.kind == ToolKind::Edit || exists|i: int|
            0 <= i < call.content@.len() && (#[trigger] call.content@[i]) is Diff,
        shows_raw_input(call) <==> call.kind != ToolKind::Execute && call.kind != ToolKind::Edit
            && forall|i: int|
            0 <= i < call.content@.len() ==> !((#[trigger] call.content@[i]) is Diff) && !(
            call.content@[i] matches ToolCallContent::ContentBlock(ContentBlock::Image { .. })),
{
    let place = model::the_first_diff_is_among_the_output(call.content@);
    if model::first_diff(call.content@) is Some {
        assert(call.content@[place] is Diff);
    }
    assert forall|i: int|
        0 <= i < call.content@.len() implies model::is_image(call.content@[i]) == (
    call.content@[i] matches ToolCallContent::ContentBlock(ContentBlock::Image { .. })) by {}
    if shows_raw_input(call) {
        assert forall|i: int| 0 <= i < call.content@.len() implies !((
        #[trigger] call.content@[i]) is Diff) && !(call.content@[i] matches
            ToolCallContent::ContentBlock(ContentBlock::Image { .. })) by {
            assert(!model::is_image(call.content@[i]));
        }
    }
    if forall|i: int|
        0 <= i < call.content@.len() ==> !((#[trigger] call.content@[i]) is Diff) && !(
        call.content@[i] matches ToolCallContent::ContentBlock(ContentBlock::Image { .. })) {
        assert forall|i: int| 0 <= i < call.content@.len() implies !model::is_image(
            #[trigger] call.content@[i],
        ) by {}
    }
}

/// The first diff of a call decides whether the call shows a diff and whether its output has the
/// focus. Without a diff it does neither.
pub proof fn the_first_diff_decides(call: ToolCall, k: int, diff: Diff)
    requires
        0 <= k < call.content@.len(),
        call.content@[k] == ToolCallContent::Diff(diff),
        forall|i: int| 0 <= i < k ==> !((#[trigger] call.content@[i]) is Diff),
    ensures
        has_revealed_diff(call) <==> diff.editor_focus is Some && diff.has_revealed_range,
        output_has_focus(call) <==> diff.editor_focus == Some(true),
{
    let place = model::the_first_diff_is_among_the_output(call.content@);
    assert(call.content@[k] is Diff);
    if place < k {
        assert(call.content@[place] is Diff);
    }
}

/// A call without a diff shows none, and its output does not have the focus.
pub proof fn without_a_diff_nothing_is_revealed(call: ToolCall)
    requires
        forall|i: int| 0 <= i < call.content@.len() ==> !((#[trigger] call.content@[i]) is Diff),
    ensures
        !has_revealed_diff(call),
        !output_has_focus(call),
{
    let place = model::the_first_diff_is_among_the_output(call.content@);
    if model::first_diff(call.content@) is Some {
        assert(call.content@[place] is Diff);
    }
}

/// A card is open where the user has expanded the call or the call waits for an answer, and
/// closed else.
pub proof fn cards_open_by_the_user_or_for_an_answer(view: ThreadView, call: ToolCall)
    ensures
        view.expanded_tool_calls@.contains(call.id.value@) ==> is_open(view, call),
        is_open(view, call) && !view.expanded_tool_calls@.contains(call.id.value@)
            ==> call.status is WaitingForConfirmation,
        call.status is WaitingForConfirmation ==> is_open(view, call),
{
}

/// The label of a call shows its text, and an icon by its kind: that of the file for an edit of
/// one file, that of the agent for a subagent.
pub proof fn labels_show_the_call(
    label: ToolCallLabel,
    call: ToolCall,
    is_edit: bool,
    has_failed: bool,
    has_revealed_diff: bool,
    use_card_layout: bool,
    file_icon: Option<&str>,
)
    requires
        label_shows(
            label,
            call,
            is_edit,
            has_failed,
            has_revealed_diff,
            use_card_layout,
            file_icon,
        ),
    ensures
        label.label@ == call.label@,
        label.is_link <==> call.locations@.len() == 1,
        label.icon is File <==> call.kind == ToolKind::Edit && call.locations@.len() == 1,
        label.icon is Agent <==> call.is_subagent && !(label.icon is File),
        label.icon matches ToolIcon::File { icon, is_interrupted } ==> {
            &&& is_interrupted == (has_failed && has_revealed_diff)
            &&& icon is Some <==> file_icon is Some
            &&& match (icon, file_icon) {
                (Some(shown), Some(given)) => shown@ == given@,
                _ => true,
            }
        },
        label.icon == ToolIcon::Icon(IconName::ToolTerminal) ==> call.kind == ToolKind::Execute,
        label.icon == ToolIcon::Icon(IconName::ToolPencil) ==> call.kind == ToolKind::Edit,
        label.icon == ToolIcon::Icon(IconName::ToolDeleteFile) ==> call.kind == ToolKind::Delete,
        label.icon == ToolIcon::Icon(IconName::ToolThink) ==> call.kind == ToolKind::Think,
        label.icon == ToolIcon::Icon(IconName::ToolWeb) ==> call.kind == ToolKind::Fetch,
        label.icon == ToolIcon::Icon(IconName::ToolHammer) ==> call.kind == ToolKind::Other,
        label.icon == ToolIcon::Icon(IconName::ToolSearch) ==> call.kind == ToolKind::Read
            || call.kind == ToolKind::Search,
        label.icon == ToolIcon::Icon(IconName::ArrowRightLeft) ==> call.kind == ToolKind::Move
            || call.kind == ToolKind::SwitchMode,
        label.icon matches ToolIcon::Icon(icon) ==> icon == IconName::ToolTerminal || icon
            == IconName::ToolPencil || icon == IconName::ToolDeleteFile || icon
            == IconName::ToolThink || icon == IconName::ToolWeb || icon == IconName::ToolHammer
            || icon == IconName::ToolSearch || icon == IconName::ArrowRightLeft,
        label.has_padding <==> label.is_link || use_card_layout,
        label.text_is_muted <==> !label.is_link || !use_card_layout,
        label.has_gradient <==> !is_edit,
{
}

/// A link to a file shows the path of the file, in its project where it is in one, and stays in
/// the editor; any other link shows itself and leads out.
pub proof fn links_show_where_they_lead(
    link: ResourceLinkView,
    uri: Seq<char>,
    path: Seq<char>,
    project_path: Option<String>,
)
    requires
        link_shows(link, uri, project_path),
    ensures
        link.uri@ == uri,
        link.button_id@ == "item-"@ + uri,
        uri == "file://"@ + path ==> !link.is_external && link.label@ == (match project_path {
            Some(in_project) => in_project@,
            None => path,
        }),
        link.is_external ==> link.label@ == uri,
        !link.is_external ==> "file://"@.is_prefix_of(uri),
        "file://"@.is_prefix_of(uri) ==> !link.is_external,
{
    text::prefixes_and_suffixes_come_off(uri, "file://"@, path);
    let scheme = "file://"@;
    if let Some(found) = text::behind_prefix(uri, scheme) {
        assert(uri.subrange(0, scheme.len() as int) =~= scheme);
    }
    if scheme.is_prefix_of(uri) {
        assert(uri.take(scheme.len() as int) =~= scheme);
    }
}

/// The label of an image ends in the name of its format; where its size is known, the width and
/// the height stand before that.
pub proof fn images_are_labelled_by_size_and_format(format: ImageFormat, width: u32, height: u32)
    ensures
        image_label(format, Some((width, height))) == text::decimal(width as nat) + "×"@
            + text::decimal(height as nat) + " "@ + image_label(format, None),
        image_label(ImageFormat::Png, None) == "PNG"@,
        image_label(ImageFormat::Jpeg, None) == "JPEG"@,
        image_label(ImageFormat::Webp, None) == "WebP"@,
        image_label(ImageFormat::Gif, None) == "GIF"@,
        image_label(ImageFormat::Svg, None) == "SVG"@,
        image_label(ImageFormat::Bmp, None) == "BMP"@,
        image_label(ImageFormat::Tiff, None) == "TIFF"@,
        image_label(ImageFormat::Ico, None) == "ICO"@,
        image_label(ImageFormat::Pnm, None) == "PNM"@,
{
}

/// Each piece of output is shown as what it is: Markdown with its source, an image with its
/// label, a diff in its editor, a terminal as its card, and a link where there is a project.
pub proof fn output_is_shown_as_what_it_is(
    shown: ContentView,
    view: ThreadView,
    content: ToolCallContent,
    context_ix: usize,
    call: ToolCall,
    entry_ix: usize,
    card_layout: bool,
    has_failed: bool,
    context: CardContext,
)
    requires
        content_shows(
            shown,
            view,
            content,
            context_ix,
            call,
            entry_ix,
            card_layout,
            has_failed,
            context,
        ),
    ensures
        match content {
            ToolCallContent::ContentBlock(ContentBlock::Empty) => shown is Nothing,
            ToolCallContent::ContentBlock(ContentBlock::Markdown { source }) => shown matches
                ContentView::Markdown(output) && {
                &&& output.markdown@ == source@
                &&& output.is_card == card_layout
                &&& output.has_separator == (card_layout && context_ix != 0)
                &&& output.numbered is Some ==> call.tool_name is Some && call.tool_name->0@
                    == "read_file"@
            },
            ToolCallContent::ContentBlock(ContentBlock::ResourceLink { uri, .. }) => {
                &&& shown is ResourceLink <==> context.has_project
                &&& shown is Nothing <==> !context.has_project
                &&& shown matches ContentView::ResourceLink(link) ==> link.uri@ == uri@
            },
            ToolCallContent::ContentBlock(ContentBlock::Image { format, dimensions }) =>
                shown matches ContentView::Image(output) && {
                &&& output.label@ == image_label(format, dimensions)
                &&& output.is_card == card_layout
                &&& output.has_go_to_file <==> call.locations@.len() != 0
            },
            ToolCallContent::Diff(diff) => shown matches ContentView::Diff(output) && {
                &&& output.body is Editor <==> diff.editor_focus is Some && diff.has_revealed_range
                &&& output.body is Loading ==> context.is_native_connection && (call.status
                    is Pending || call.status is InProgress)
            },
            ToolCallContent::Terminal(terminal) => shown matches ContentView::Terminal(card)
                && card.has_card_border && card.header_text@ == call.label@,
        },
{
}

/// An open card shows every piece of output in order, unless the call was rejected or a native
/// edit has nothing to show yet. A call that waits also shows what is asked.
pub proof fn an_open_card_shows_all_output(
    card: ToolCallCard,
    view: ThreadView,
    call: ToolCall,
    entry_ix: usize,
    layout: ToolCallLayout,
    context: CardContext,
    i: int,
)
    requires
        tool_call_shows(card, view, call, entry_ix, layout, context),
        0 <= i < call.content@.len(),
    ensures
        card.output is Some <==> view.expanded_tool_calls@.contains(call.id.value@)
            || call.status is WaitingForConfirmation,
        match card.output {
            Some(ToolCallOutput::Confirmation { content, .. }) => {
                &&& call.status is WaitingForConfirmation
                &&& content@.len() == call.content@.len()
                &&& call.content@[i] matches ToolCallContent::Diff(diff) ==> (content@[i] matches
                    ContentView::Diff(shown) && (shown.body is Editor <==> diff.editor_focus is Some
                    && diff.has_revealed_range))
                &&& call.content@[i] matches ToolCallContent::ContentBlock(
                    ContentBlock::Markdown { source },
                ) ==> (content@[i] matches ContentView::Markdown(shown) && shown.markdown@
                    == source@)
            },
            Some(ToolCallOutput::Output { content, has_collapse_button, .. }) => {
                &&& !(call.status is WaitingForConfirmation) && !(call.status is Rejected)
                &&& content@.len() == call.content@.len()
                &&& call.content@[i] matches ToolCallContent::Diff(diff) ==> (content@[i] matches
                    ContentView::Diff(shown) && (shown.body is Editor <==> diff.editor_focus is Some
                    && diff.has_revealed_range))
                &&& call.content@[i] matches ToolCallContent::ContentBlock(
                    ContentBlock::Markdown { source },
                ) ==> (content@[i] matches ContentView::Markdown(shown) && shown.markdown@
                    == source@)
                &&& call.content@[i] is Terminal ==> content@[i] is Terminal
                &&& call.kind == ToolKind::Execute || call.kind == ToolKind::Edit
                    || call.content@[i] is Diff ==> !has_collapse_button
            },
            Some(ToolCallOutput::Nothing) => call.status is Rejected,
            Some(ToolCallOutput::DiffLoading) => false,
            None => true,
        },
{
    edits_and_commands_have_cards(call);
    if let Some(ToolCallOutput::Confirmation { content, .. }) = card.output {
        assert(content_shows(
            content@[i],
            view,
            call.content@[i],
            i as usize,
            call,
            entry_ix,
            uses_card(call),
            call.status.ended_badly(),
            context,
        ));
    }
    if let Some(ToolCallOutput::Output { content, .. }) = card.output {
        assert(content_shows(
            content@[i],
            view,
            call.content@[i],
            i as usize,
            call,
            entry_ix,
            uses_card(call),
            call.status.ended_badly(),
            context,
        ));
    }
}

/// Only an edit of a native agent that is under way and has given nothing yet is shown as
/// loading.
pub proof fn only_young_native_edits_are_loading(
    output: ToolCallOutput,
    view: ThreadView,
    call: ToolCall,
    entry_ix: usize,
    context: CardContext,
)
    requires
        output_shows(output, view, call, entry_ix, context),
    ensures
        output is DiffLoading <==> (call.status is Pending || call.status is InProgress)
            && call.kind == ToolKind::Edit && call.content@.len() == 0
            && context.is_native_connection,
        output is Nothing <==> call.status is Rejected,
        output is Confirmation <==> call.status is WaitingForConfirmation,
{
    edits_and_commands_have_cards(call);
}

/// The raw input of a call that waits is offered for calls that are neither edits nor commands
/// and give no image; it is written out once the user has expanded it.
pub proof fn raw_input_is_written_out_once_expanded(
    raw_input: Option<RawInput>,
    view: ThreadView,
    call: ToolCall,
)
    requires
        raw_input_shows(raw_input, view, call),
    ensures
        call.kind == ToolKind::Execute || call.kind == ToolKind::Edit ==> raw_input is None,
        call.content@.len() == 0 && call.kind != ToolKind::Execute && call.kind != ToolKind::Edit
            ==> raw_input is Some,
        raw_input matches Some(shown) ==> {
            &&& shown.is_expanded <==> view.expanded_tool_call_raw_inputs@.contains(call.id.value@)
            &&& !shown.is_expanded ==> shown.markdown is None && shown.header@
                == "View Raw Input"@
            &&& shown.is_expanded ==> shown.header@ == "Raw Input:"@ && (shown.markdown is Some
                <==> call.raw_input_markdown is Some) && (match (
                shown.markdown,
                call.raw_input_markdown,
            ) {
                (Some(a), Some(b)) => a@ == b@,
                _ => true,
            })
        },
{
    edits_and_commands_have_cards(call);
}

/// The header of a call lets the user open and close what it has to show, unless the call waits;
/// a sign of failure stands on calls that ended badly. An interrupted edit with a diff offers to
/// discard it instead, until that was done.
pub proof fn headers_offer_what_can_be_done(view: ThreadView, call: ToolCall)
    ensures
        ({
            let controls = header_controls(view, call);
            let is_canceled_edit = call.status is Canceled && is_edit(call);
            &&& controls.disclosure is Some <==> call.content@.len() != 0 && !(call.status
                is WaitingForConfirmation)
            &&& controls.disclosure matches Some(open) ==> open
                == view.expanded_tool_calls@.contains(call.id.value@)
            &&& call.status is Failed || call.status is Rejected ==> controls.failure == Some(
                FailureSign::Failed,
            )
            &&& call.status is Canceled && !is_canceled_edit ==> controls.failure == Some(
                FailureSign::Failed,
            )
            &&& is_canceled_edit && !has_revealed_diff(call) ==> controls.failure == Some(
                FailureSign::InterruptedEdit,
            )
            &&& call.status is Pending || call.status is InProgress || call.status is Completed
                || call.status is WaitingForConfirmation ==> controls.failure is None
            &&& is_canceled_edit && has_revealed_diff(call) ==> controls.failure is None
            &&& controls.offers_discard <==> is_canceled_edit && has_revealed_diff(call)
                && !view.discarded_partial_edits@.contains(call.id.value@)
            &&& controls.offers_open_file <==> output_has_focus(call)
        }),
{
}

/// The header of a command is the command, without its fences and marked as not run by itself;
/// every other header is the label of the call with its controls.
pub proof fn headers_show_the_call(
    card: ToolCallCard,
    view: ThreadView,
    call: ToolCall,
    entry_ix: usize,
    layout: ToolCallLayout,
    context: CardContext,
    command: Seq<char>,
)
    requires
        tool_call_shows(card, view, call, entry_ix, layout, context),
    ensures
        card.header is Command <==> call.kind == ToolKind::Execute,
        match card.header {
            ToolCallHeader::Command(shown) => {
                &&& call.label@ == "```\n"@ + command + "\n```"@ ==> shown.command_text@ == command
                &&& shown.label is Some && shown.label->0@ == "Run Command"@
            },
            ToolCallHeader::Label { label, has_card_background, controls } => {
                &&& label.label@ == call.label@
                &&& has_card_background <==> call.status is WaitingForConfirmation || is_edit(call)
                &&& controls == header_controls(view, call)
                &&& label.icon matches ToolIcon::File { is_interrupted, .. } ==> is_interrupted
                    == (call.status is Canceled && has_revealed_diff(call))
            },
        },
{
    terminal_card::unfencing_gives_the_command(command);
}

/// A card inside another has no frame and no margin. A card of its own has a frame where the
/// call waits, edits or runs a command, dashed where it ended badly; the others stand plainly.
pub proof fn frames_tell_cards_from_plain_calls(call: ToolCall, layout: ToolCallLayout)
    ensures
        layout == ToolCallLayout::Embedded ==> card_frame(call, layout) is Embedded && card_margin(
            call,
            layout,
        ) is Nothing,
        layout == ToolCallLayout::Standalone ==> {
            &&& card_frame(call, layout) is Card <==> uses_card(call)
            &&& card_frame(call, layout) is Plain <==> !uses_card(call)
            &&& card_frame(call, layout) matches CardFrame::Card { is_dashed } ==> (is_dashed
                <==> call.status is Failed || call.status is Rejected || call.status is Canceled)
            &&& card_margin(call, layout) is Small <==> call.locations@.len() == 1 && !uses_card(
                call,
            )
            &&& !(card_margin(call, layout) is Nothing)
        },
{
}

/// The card of a call has the frame and the margin for its place.
pub proof fn cards_have_their_frames(
    card: ToolCallCard,
    view: ThreadView,
    call: ToolCall,
    entry_ix: usize,
    layout: ToolCallLayout,
    context: CardContext,
)
    requires
        tool_call_shows(card, view, call, entry_ix, layout, context),
    ensures
        card.frame is Embedded <==> layout == ToolCallLayout::Embedded,
        layout == ToolCallLayout::Standalone && call.kind == ToolKind::Execute ==> card.frame == (
        CardFrame::Card { is_dashed: call.status is Failed || call.status is Rejected || call.status
            is Canceled }),
        card.margin is Nothing <==> layout == ToolCallLayout::Embedded,
{
}

/// A place is opened exactly where the entry is a call that has it and the agent is tracked
/// there.
pub proof fn places_open_where_the_agent_is_tracked(
    entries: Seq<AgentThreadEntry>,
    entry_ix: int,
    location_ix: int,
    call: ToolCall,
)
    requires
        0 <= entry_ix < entries.len(),
    ensures
        entries[entry_ix].content == EntryContent::ToolCall(call) && 0 <= location_ix
            < call.locations@.len() ==> {
            &&& call.locations@[location_ix].agent_position is Some ==> location_at(
                entries,
                entry_ix,
                location_ix,
            ) == Some(call.locations@[location_ix])
            &&& call.locations@[location_ix].agent_position is None ==> location_at(
                entries,
                entry_ix,
                location_ix,
            ) is None
        },
        !(entries[entry_ix].content is ToolCall) ==> location_at(entries, entry_ix, location_ix)
            is None,
        location_at(entries, entries.len() as int, location_ix) is None,
{
}

/// A call that waits shows its raw input with the question, where it has any to show: folded,
/// until the user unfolds it.
pub proof fn waiting_calls_show_their_raw_input(
    output: ToolCallOutput,
    view: ThreadView,
    call: ToolCall,
    entry_ix: usize,
    context: CardContext,
)
    requires
        call.status is WaitingForConfirmation,
        output_shows(output, view, call, entry_ix, context),
    ensures
        output matches ToolCallOutput::Confirmation { raw_input, .. } && {
            &&& raw_input is Some <==> shows_raw_input(call)
            &&& raw_input matches Some(shown) ==> {
                let is_unfolded = view.expanded_tool_call_raw_inputs@.contains(call.id.value@);
                &&& shown.is_expanded <==> is_unfolded
                &&& is_unfolded ==> shown.header@ == "Raw Input:"@
                &&& !is_unfolded ==> shown.header@ == "View Raw Input"@ && shown.markdown is None
                &&& is_unfolded ==> (shown.markdown is Some <==> call.raw_input_markdown is Some)
                &&& shown.markdown matches Some(words) ==> words@ == call.raw_input_markdown->0@
            }
        },
{
}

} // verus!
