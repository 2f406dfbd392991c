//! The conversation as plain values: entries, tool calls, permission options,
//! plans and token usage, and the vocabulary of what is shown of them.

use crate::keyed::Keyed;
use vstd::prelude::*;

verus! {

/// The icons that the view uses.
#[derive(Clone, Copy, PartialEq, Eq, Structural, Debug)]
pub enum IconName {
    AiZed,
    ArrowCircle,
    ArrowDown,
    ArrowRightLeft,
    ArrowUp,
    ArrowUpRight,
    Check,
    CheckDouble,
    ChevronDown,
    ChevronUp,
    Circle,
    Close,
    Code,
    Crosshair,
    CursorIBeam,
    Dash,
    Download,
    Eye,
    FastForward,
    FastForwardOff,
    File,
    FileMarkdown,
    Folder,
    ForwardArrow,
    ForwardArrowUp,
    GitBranch,
    Image,
    Info,
    ListTodo,
    Maximize,
    Minimize,
    Notepad,
    Pencil,
    PencilUnavailable,
    Plus,
    QueueMessage,
    Return,
    RotateCw,
    Send,
    Sparkle,
    Stop,
    ThinkingMode,
    ThinkingModeOff,
    Thread,
    ThumbsDown,
    ThumbsUp,
    ToolDeleteFile,
    ToolHammer,
    ToolPencil,
    ToolSearch,
    ToolTerminal,
    ToolThink,
    ToolWeb,
    Trash,
    Undo,
    Warning,
    XCircle,
}

/// The colours that the view uses, by their role in the theme.
#[derive(Clone, Copy, PartialEq, Eq, Structural, Debug)]
pub enum Color {
    Default,
    Muted,
    Accent,
    Success,
    Warning,
    Error,
    Info,
    Ignored,
    Disabled,
    /// The theme's disabled icon colour, with some transparency.
    DisabledIcon,
}

/// The sizes of a label.
#[derive(Clone, Copy, PartialEq, Eq, Structural, Debug)]
pub enum LabelSize {
    Default,
    Large,
    Small,
    XSmall,
}

/// How grave a callout is.
#[derive(Clone, Copy, PartialEq, Eq, Structural, Debug)]
pub enum Severity {
    Info,
    Warning,
    Error,
}

/// How an icon is shown: as a picture in a colour, or as a spinner.
#[derive(Clone, Copy, PartialEq, Eq, Structural, Debug)]
pub enum StatusIcon {
    Spinner,
    Icon(IconName, Color),
}

/// The spinner shapes.
#[derive(Clone, Copy, PartialEq, Eq, Structural, Debug)]
pub enum SpinnerVariant {
    Dots,
    DotsVariant,
    Sand,
}

/// What a thread does at the moment.
#[derive(Clone, Copy, PartialEq, Eq, Structural, Debug)]
pub enum ThreadStatus {
    Idle,
    Generating,
}

/// Whether an operation can change anything.
#[derive(Clone, Copy, PartialEq, Eq, Structural, Debug)]
pub enum ApprovalRisk {
    ReadOnly,
    PotentiallyDestructive,
}

impl ApprovalRisk {
    /// The short word for the risk.
    pub open spec fn word(self) -> Seq<char> {
        match self {
            ApprovalRisk::ReadOnly => "RO"@,
            ApprovalRisk::PotentiallyDestructive => "Destructive"@,
        }
    }

    /// The short word for the risk.
    pub fn label(&self) -> (r: &'static str)
        ensures
            r@ == self.word(),
    {
        match self {
            ApprovalRisk::ReadOnly => "RO",
            ApprovalRisk::PotentiallyDestructive => "Destructive",
        }
    }

    /// Whether the operation only reads.
    pub fn is_read_only(&self) -> (r: bool)
        ensures
            r == (*self == ApprovalRisk::ReadOnly),
    {
        *self == ApprovalRisk::ReadOnly
    }
}

/// The risk of a tool call, as the agent layer classified it with the tool's name.
pub struct ToolRisk {
    pub risk: ApprovalRisk,
    /// The word for the risk of this tool, such as "Write" or "Plan Change".
    pub display_label: String,
    /// Whether the tool can write outside the working directory.
    pub is_externally_destructive: bool,
}

/// The kinds of answer to a permission request.
#[derive(Clone, Copy, PartialEq, Eq, Structural, Debug)]
pub enum PermissionOptionKind {
    AllowOnce,
    AllowAlways,
    RejectOnce,
    RejectAlways,
    /// A kind that is not known here.
    Other,
}

/// One answer that a permission request offers.
#[derive(Debug)]
pub struct PermissionOption {
    pub option_id: String,
    pub name: String,
    pub kind: PermissionOptionKind,
}

impl Clone for PermissionOption {
    fn clone(&self) -> (r: Self)
        ensures
            r == *self,
    {
        PermissionOption {
            option_id: self.option_id.clone(),
            name: self.name.clone(),
            kind: self.kind,
        }
    }
}

/// One granularity of a permission dropdown, with its two answers.
pub struct PermissionOptionChoice {
    pub label: String,
    pub allow: PermissionOption,
    pub deny: PermissionOption,
}

/// A command pattern that can be permitted on its own.
pub struct PermissionPattern {
    pub display_name: String,
}

/// The answers that a permission request offers, and how they are laid out.
pub enum PermissionOptions {
    Flat(Vec<PermissionOption>),
    Dropdown(Vec<PermissionOptionChoice>),
    DropdownWithPatterns {
        choices: Vec<PermissionOptionChoice>,
        patterns: Vec<PermissionPattern>,
        tool_name: String,
    },
}

/// The two answers of each choice in order: allow before deny.
pub open spec fn choice_options(choices: Seq<PermissionOptionChoice>) -> Seq<PermissionOption>
    decreases choices.len(),
{
    if choices.len() == 0 {
        seq![]
    } else {
        choice_options(choices.drop_last()).push(choices.last().allow).push(choices.last().deny)
    }
}

/// The first option of a kind in a sequence.
pub open spec fn first_of_kind(
    options: Seq<PermissionOption>,
    kind: PermissionOptionKind,
) -> Option<PermissionOption>
    decreases options.len(),
{
    if options.len() == 0 {
        None
    } else if first_of_kind(options.drop_last(), kind) is Some {
        first_of_kind(options.drop_last(), kind)
    } else if options.last().kind == kind {
        Some(options.last())
    } else {
        None
    }
}

impl PermissionOptions {
    /// All answers in the order in which they are offered.
    pub open spec fn all(self) -> Seq<PermissionOption> {
        match self {
            PermissionOptions::Flat(options) => options@,
            PermissionOptions::Dropdown(choices) => choice_options(choices@),
            PermissionOptions::DropdownWithPatterns { choices, .. } => choice_options(choices@),
        }
    }

    /// The first answer of the kind.
    pub fn first_option_of_kind(&self, kind: PermissionOptionKind) -> (r: Option<PermissionOption>)
        ensures
            r == first_of_kind(self.all(), kind),
    {
        match self {
            PermissionOptions::Flat(options) => first_option(options, kind),
            PermissionOptions::Dropdown(choices) => first_choice_option(choices, kind),
            PermissionOptions::DropdownWithPatterns { choices, .. } => first_choice_option(
                choices,
                kind,
            ),
        }
    }
}

fn first_option(options: &Vec<PermissionOption>, kind: PermissionOptionKind) -> (r: Option<
    PermissionOption,
>)
    ensures
        r == first_of_kind(options@, kind),
{
    let mut found: Option<PermissionOption> = None;
    let mut i: usize = 0;
    while i < options.len()
        invariant
            i <= options@.len(),
            found == first_of_kind(options@.take(i as int), kind),
        decreases options@.len() - i,
    {
        assert(options@.take(i + 1).drop_last() == options@.take(i as int));
        if found.is_none() && options[i].kind == kind {
            found = Some(options[i].clone());
        }
        i = i + 1;
    }
    assert(options@.take(i as int) == options@);
    found
}

fn first_choice_option(
    choices: &Vec<PermissionOptionChoice>,
    kind: PermissionOptionKind,
) -> (r: Option<PermissionOption>)
    ensures
        r == first_of_kind(choice_options(choices@), kind),
{
    let mut found: Option<PermissionOption> = None;
    let mut i: usize = 0;
    while i < choices.len()
        invariant
            i <= choices@.len(),
            found == first_of_kind(choice_options(choices@.take(i as int)), kind),
        decreases choices@.len() - i,
    {
        proof {
            let before = choice_options(choices@.take(i as int));
            let choice = choices@[i as int];
            assert(choices@.take(i + 1).drop_last() == choices@.take(i as int));
            assert(before.push(choice.allow).drop_last() == before);
            assert(before.push(choice.allow).push(choice.deny).drop_last() == before.push(
                choice.allow,
            ));
            assert(first_of_kind(before.push(choice.allow), kind) == (if first_of_kind(
                before,
                kind,
            ) is Some {
                first_of_kind(before, kind)
            } else if choice.allow.kind == kind {
                Some(choice.allow)
            } else {
                None
            }));
        }
        if found.is_none() {
            if choices[i].allow.kind == kind {
                found = Some(choices[i].allow.clone());
            } else if choices[i].deny.kind == kind {
                found = Some(choices[i].deny.clone());
            }
        }
        i = i + 1;
    }
    assert(choices@.take(i as int) == choices@);
    found
}

/// How far a tool call has come.
pub enum ToolCallStatus {
    Pending,
    WaitingForConfirmation { options: PermissionOptions },
    InProgress,
    Completed,
    Failed,
    Rejected,
    Canceled,
}

impl ToolCallStatus {
    /// Whether the call waits for the user's answer.
    pub fn is_waiting(&self) -> (r: bool)
        ensures
            r == (*self is WaitingForConfirmation),
    {
        matches!(self, ToolCallStatus::WaitingForConfirmation { .. })
    }

    /// Whether the call was rejected or canceled, or failed.
    pub open spec fn ended_badly(self) -> bool {
        self is Rejected || self is Canceled || self is Failed
    }

    /// Whether the call was rejected or canceled, or failed.
    pub fn is_ended_badly(&self) -> (r: bool)
        ensures
            r == self.ended_badly(),
    {
        matches!(self, ToolCallStatus::Rejected | ToolCallStatus::Canceled | ToolCallStatus::Failed)
    }

    /// Whether the call is under way without waiting for an answer.
    pub open spec fn under_way(self) -> bool {
        self is InProgress || self is Pending
    }

    /// Whether the call is under way without waiting for an answer.
    pub fn is_under_way(&self) -> (r: bool)
        ensures
            r == self.under_way(),
    {
        matches!(self, ToolCallStatus::InProgress | ToolCallStatus::Pending)
    }
}

/// What a tool does.
#[derive(Clone, Copy, PartialEq, Eq, Structural, Debug)]
pub enum ToolKind {
    Read,
    Edit,
    Delete,
    Move,
    Search,
    Execute,
    Think,
    Fetch,
    SwitchMode,
    Other,
}

/// The roles of a subagent.
#[derive(Clone, Copy, PartialEq, Eq, Structural, Debug)]
pub enum AgentPersona {
    General,
    Implementer,
    Reviewer,
    Researcher,
    Explorer,
    Plan,
    Architect,
    Verifier,
}

/// The identifier of a tool call.
#[derive(Debug)]
pub struct ToolCallId {
    pub value: String,
}

impl ToolCallId {
    /// The identifier with these characters.
    pub fn new(value: &str) -> (r: Self)
        ensures
            r.key() == value@,
    {
        ToolCallId { value: value.to_owned() }
    }
}

impl Clone for ToolCallId {
    fn clone(&self) -> (r: Self)
        ensures
            r == *self,
    {
        ToolCallId { value: self.value.clone() }
    }
}

impl Keyed for ToolCallId {
    type Key = Seq<char>;

    open spec fn key(&self) -> Seq<char> {
        self.value@
    }

    fn same_key(&self, other: &Self) -> (r: bool) {
        self.value == other.value
    }
}

/// What a block of tool output holds.
pub enum ContentBlock {
    Empty,
    Markdown { source: String },
    /// A link, with the path of its file in the project, where there is one.
    ResourceLink { uri: String, project_path: Option<String> },
    Image { format: ImageFormat, dimensions: Option<(u32, u32)> },
}

/// The image formats.
#[derive(Clone, Copy, PartialEq, Eq, Structural, Debug)]
pub enum ImageFormat {
    Png,
    Jpeg,
    Webp,
    Gif,
    Svg,
    Bmp,
    Tiff,
    Ico,
    Pnm,
}

/// A diff of a tool call, with what the view knows of its editor.
pub struct Diff {
    /// Whether the diff shows a range.
    pub has_revealed_range: bool,
    /// The editor for the diff, where there is one: whether it has the focus.
    pub editor_focus: Option<bool>,
}

/// What a finished command left behind.
pub struct TerminalOutput {
    pub content_len: u64,
    pub original_content_len: u64,
    pub content_line_count: u64,
    /// The two lengths as they are shown to the user.
    pub content_size: String,
    pub original_size: String,
    pub exit_status: Option<ExitStatus>,
}

/// How a command ended.
#[derive(Clone, Copy, PartialEq, Eq, Structural, Debug)]
pub struct ExitStatus {
    pub success: bool,
    pub code: Option<i32>,
}

/// A terminal of a tool call.
pub struct Terminal {
    pub entity_id: u64,
    pub working_dir: Option<String>,
    pub output: Option<TerminalOutput>,
    /// The time from start to end, or to now where the command runs, in nanoseconds.
    pub elapsed_ns: u64,
    /// The elapsed time in words.
    pub elapsed_text: String,
    /// Whether the view has a terminal view for it.
    pub has_view: bool,
}

/// A piece of a tool call's output.
pub enum ToolCallContent {
    ContentBlock(ContentBlock),
    Diff(Diff),
    Terminal(Terminal),
}

/// A place in a file that a tool call touched.
pub struct ToolCallLocation {
    pub path: String,
    pub line: Option<u32>,
    /// The position of the agent there, by the number under which it is tracked.
    pub agent_position: Option<u64>,
}

/// The subagent that a tool call spawned.
pub struct SubagentSessionInfo {
    pub session_id: String,
    pub persona: Option<AgentPersona>,
    pub message_start_index: usize,
    pub message_end_index: Option<usize>,
}

/// A tool call of the agent.
pub struct ToolCall {
    pub id: ToolCallId,
    /// The source of the label, in Markdown.
    pub label: String,
    pub kind: ToolKind,
    pub status: ToolCallStatus,
    pub content: Vec<ToolCallContent>,
    pub locations: Vec<ToolCallLocation>,
    pub tool_name: Option<String>,
    pub raw_input_markdown: Option<String>,
    pub subagent_session_info: Option<SubagentSessionInfo>,
    pub is_monitor: bool,
    pub is_subagent: bool,
    pub risk: ToolRisk,
}

/// The first diff among pieces of output.
pub open spec fn first_diff(content: Seq<ToolCallContent>) -> Option<Diff>
    decreases content.len(),
{
    if content.len() == 0 {
        None
    } else {
        match first_diff(content.drop_last()) {
            Some(diff) => Some(diff),
            None => match content.last() {
                ToolCallContent::Diff(diff) => Some(diff),
                _ => None,
            },
        }
    }
}

/// Whether one of the pieces of output is a terminal.
pub open spec fn has_terminal(content: Seq<ToolCallContent>) -> bool {
    exists|i: int| 0 <= i < content.len() && (#[trigger] content[i]) is Terminal
}

/// Whether a piece of output is an image.
pub open spec fn is_image(content: ToolCallContent) -> bool {
    content matches ToolCallContent::ContentBlock(block) && block is Image
}

impl ToolCall {
    /// The first diff of the call.
    pub fn first_diff(&self) -> (r: Option<&Diff>)
        ensures
            r is Some <==> first_diff(self.content@) is Some,
            r matches Some(diff) ==> first_diff(self.content@) == Some(*diff),
    {
        let mut i: usize = 0;
        while i < self.content.len()
            invariant
                i <= self.content@.len(),
                first_diff(self.content@.take(i as int)) is None,
            decreases self.content@.len() - i,
        {
            assert(self.content@.take(i + 1).drop_last() == self.content@.take(i as int));
            if let ToolCallContent::Diff(diff) = &self.content[i] {
                proof {
                    assert(first_diff(self.content@.take(i + 1)) == Some(*diff));
                    lemma_first_diff_stays(self.content@, i + 1);
                }
                return Some(diff);
            }
            i = i + 1;
        }
        assert(self.content@.take(i as int) == self.content@);
        None
    }

    /// Whether the call has a terminal.
    pub fn has_terminal(&self) -> (r: bool)
        ensures
            r == has_terminal(self.content@),
    {
        let mut i: usize = 0;
        while i < self.content.len()
            invariant
                i <= self.content@.len(),
                forall|j: int| 0 <= j < i ==> !((#[trigger] self.content@[j]) is Terminal),
            decreases self.content@.len() - i,
        {
            if let ToolCallContent::Terminal(_) = &self.content[i] {
                assert(self.content@[i as int] is Terminal);
                return true;
            }
            i = i + 1;
        }
        false
    }

    /// Whether the call has an image.
    pub fn has_image(&self) -> (r: bool)
        ensures
            r == (exists|i: int| 0 <= i < self.content@.len() && is_image(#[trigger] self.content@[i])),
    {
        let mut i: usize = 0;
        while i < self.content.len()
            invariant
                i <= self.content@.len(),
                forall|j: int| 0 <= j < i ==> !is_image(#[trigger] self.content@[j]),
            decreases self.content@.len() - i,
        {
            if let ToolCallContent::ContentBlock(ContentBlock::Image { .. }) = &self.content[i] {
                assert(is_image(self.content@[i as int]));
                return true;
            }
            i = i + 1;
        }
        false
    }
}

proof fn lemma_first_diff_stays(content: Seq<ToolCallContent>, n: int)
    requires
        0 <= n <= content.len(),
        first_diff(content.take(n)) is Some,
    ensures
        first_diff(content) == first_diff(content.take(n)),
    decreases content.len(),
{
    if n == content.len() {
        assert(content.take(n) == content);
    } else {
        assert(content.drop_last().take(n) == content.take(n));
        lemma_first_diff_stays(content.drop_last(), n);
    }
}

/// A block of a message of the agent.
pub struct MessageBlock {
    /// The Markdown source, where the block is Markdown.
    pub markdown: Option<String>,
    /// The block as Markdown text, whatever it is.
    pub rendered: String,
    /// Whether text in the block is selected.
    pub has_selection: bool,
    /// The link under the context menu.
    pub context_menu_link: Option<String>,
}

/// A part of a message of the agent.
pub enum AssistantMessageChunk {
    Message { block: MessageBlock },
    Thought { block: MessageBlock },
}

/// A block of a prompt.
pub enum PromptBlock {
    Text(String),
    ResourceLink { name: String, uri: String },
    /// A block of another kind, by the number under which its content is kept.
    Other { number: u64 },
}

/// A message of the user.
pub struct UserMessage {
    pub id: Option<String>,
    pub markdown: String,
    /// The checkpoint of the message: whether it is offered.
    pub checkpoint_show: Option<bool>,
}

/// A message of the agent.
pub struct AssistantMessage {
    pub chunks: Vec<AssistantMessageChunk>,
    pub is_subagent_output: bool,
}

/// The states of a plan entry.
#[derive(Clone, Copy, PartialEq, Eq, Structural, Debug)]
pub enum PlanEntryStatus {
    Pending,
    InProgress,
    Completed,
}

/// A step of a plan.
pub struct PlanEntry {
    pub content: String,
    pub status: PlanEntryStatus,
    /// The risk of the operation that the step describes.
    pub risk: ApprovalRisk,
    pub is_externally_destructive: bool,
}

/// What stands at one place of a thread.
pub enum EntryContent {
    UserMessage(UserMessage),
    AssistantMessage(AssistantMessage),
    ToolCall(ToolCall),
    CompletedPlan(Vec<PlanEntry>),
    ContextCompaction,
}

/// One entry of a thread.
pub struct AgentThreadEntry {
    pub is_indented: bool,
    pub content: EntryContent,
}

/// The plan of a thread.
pub struct Plan {
    pub entries: Vec<PlanEntry>,
    pub is_proposed: bool,
}

/// How many tokens a thread has used.
#[derive(Clone, Copy, PartialEq, Eq, Structural, Debug)]
pub struct TokenUsage {
    pub used_tokens: u64,
    pub max_tokens: u64,
    pub max_output_tokens: Option<u64>,
    pub input_tokens: u64,
    pub output_tokens: u64,
}

impl Default for TokenUsage {
    fn default() -> (r: Self)
        ensures
            r == (TokenUsage {
                used_tokens: 0,
                max_tokens: 0,
                max_output_tokens: None,
                input_tokens: 0,
                output_tokens: 0,
            }),
    {
        TokenUsage {
            used_tokens: 0,
            max_tokens: 0,
            max_output_tokens: None,
            input_tokens: 0,
            output_tokens: 0,
        }
    }
}

/// How near a thread is to its token limit.
#[derive(Clone, Copy, PartialEq, Eq, Structural, Debug)]
pub enum TokenUsageRatio {
    Normal,
    Warning,
    Exceeded,
}

/// A conversation with an agent.
pub struct AcpThread {
    pub session_id: String,
    pub parent_session_id: Option<String>,
    pub title: Option<String>,
    pub entries: Vec<AgentThreadEntry>,
    pub status: ThreadStatus,
    pub plan: Plan,
    pub token_usage: Option<TokenUsage>,
    pub token_usage_ratio: TokenUsageRatio,
    pub persona: Option<AgentPersona>,
    pub has_outstanding_todos: bool,
    pub active_subagent_count: usize,
    /// Whether messages can be edited, which restarts the thread from there.
    pub supports_truncate: bool,
    pub can_retry: bool,
}

/// Whether the entry is a message of the user.
pub open spec fn is_user_message(entry: AgentThreadEntry) -> bool {
    entry.content is UserMessage
}

/// Whether the entry is a tool call that waits for the user's answer.
pub open spec fn is_waiting_call(entry: AgentThreadEntry) -> bool {
    entry.content matches EntryContent::ToolCall(call) && call.status is WaitingForConfirmation
}

/// Whether the entry is a tool call that runs as a background monitor.
pub open spec fn is_monitor_call(entry: AgentThreadEntry) -> bool {
    entry.content matches EntryContent::ToolCall(call) && call.is_monitor
}

impl AgentThreadEntry {
    /// Whether the entry is a message of the user.
    pub fn is_user_message(&self) -> (r: bool)
        ensures
            r == is_user_message(*self),
    {
        matches!(&self.content, EntryContent::UserMessage(_))
    }

    /// Whether the entry is a tool call that waits for the user's answer.
    pub fn is_waiting_for_confirmation(&self) -> (r: bool)
        ensures
            r == is_waiting_call(*self),
    {
        match &self.content {
            EntryContent::ToolCall(call) => call.status.is_waiting(),
            _ => false,
        }
    }

    /// Whether the entry is a tool call that runs as a background monitor.
    pub fn is_monitor(&self) -> (r: bool)
        ensures
            r == is_monitor_call(*self),
    {
        match &self.content {
            EntryContent::ToolCall(call) => call.is_monitor,
            _ => false,
        }
    }
}

/// The first option of a kind is an option of that kind that is offered, with none of the kind
/// before it. There is none exactly where no option is of the kind.
pub proof fn the_first_of_a_kind_is_offered(
    options: Seq<PermissionOption>,
    kind: PermissionOptionKind,
) -> (place: int)
    ensures
        match first_of_kind(options, kind) {
            Some(option) => 0 <= place < options.len() && options[place] == option && option.kind
                == kind && forall|i: int| 0 <= i < place ==> (#[trigger] options[i]).kind != kind,
            None => forall|i: int| 0 <= i < options.len() ==> (#[trigger] options[i]).kind != kind,
        },
    decreases options.len(),
{
    if options.len() == 0 {
        0
    } else {
        let before = options.drop_last();
        let place = the_first_of_a_kind_is_offered(before, kind);
        if first_of_kind(before, kind) is Some {
            assert(before[place] == options[place]);
            assert forall|i: int| 0 <= i < place implies (#[trigger] options[i]).kind != kind by {
                assert(before[i] == options[i]);
            }
            place
        } else {
            assert forall|i: int| 0 <= i < before.len() implies (#[trigger] options[i]).kind
                != kind by {
                assert(before[i] == options[i]);
            }
            options.len() - 1
        }
    }
}

/// A choice offers its two answers, allowing before denying, in the order of the choices.
pub proof fn choices_offer_their_two_answers(choices: Seq<PermissionOptionChoice>, i: int)
    requires
        0 <= i < choices.len(),
    ensures
        choice_options(choices).len() == 2 * choices.len(),
        choice_options(choices)[2 * i] == choices[i].allow,
        choice_options(choices)[2 * i + 1] == choices[i].deny,
    decreases choices.len(),
{
    let before = choices.drop_last();
    let options = choice_options(choices);
    if before.len() > 0 {
        choices_offer_their_two_answers(before, if i < before.len() {
            i
        } else {
            0
        });
    } else {
        assert(choice_options(before).len() == 0);
    }
    if i < before.len() {
        assert(options[2 * i] == choice_options(before)[2 * i]);
        assert(options[2 * i + 1] == choice_options(before)[2 * i + 1]);
    }
}

/// All answers of a request are offered: those of a flat request as they stand, those of a
/// dropdown by its choices, whether or not it has patterns.
pub proof fn requests_offer_their_answers(
    flat: Vec<PermissionOption>,
    choices: Vec<PermissionOptionChoice>,
    patterns: Vec<PermissionPattern>,
    tool_name: String,
    i: int,
)
    requires
        0 <= i < choices@.len(),
    ensures
        PermissionOptions::Flat(flat).all() == flat@,
        ({
            let plain = PermissionOptions::Dropdown(choices).all();
            &&& plain.len() == 2 * choices@.len()
            &&& plain[2 * i] == choices@[i].allow
            &&& plain[2 * i + 1] == choices@[i].deny
            &&& (PermissionOptions::DropdownWithPatterns { choices, patterns, tool_name }).all()
                == plain
        }),
{
    choices_offer_their_two_answers(choices@, i);
}

/// A call waits for an answer, is under way, is complete or has ended badly, and never two of
/// these at once.
pub proof fn a_call_is_in_one_state(status: ToolCallStatus)
    ensures
        status.under_way() <==> !(status is WaitingForConfirmation || status is Completed
            || status.ended_badly()),
        status.ended_badly() ==> !(status is WaitingForConfirmation) && !(status is Completed),
        status is Pending || status is InProgress ==> status.under_way(),
        status is Failed || status is Rejected || status is Canceled ==> status.ended_badly(),
{
}

/// The first diff of a call is a diff among its output with no diff before it. There is none
/// exactly where no piece of output is a diff.
pub proof fn the_first_diff_is_among_the_output(content: Seq<ToolCallContent>) -> (place: int)
    ensures
        match first_diff(content) {
            Some(diff) => 0 <= place < content.len() && content[place] == ToolCallContent::Diff(
                diff,
            ) && forall|i: int| 0 <= i < place ==> !((#[trigger] content[i]) is Diff),
            None => forall|i: int| 0 <= i < content.len() ==> !((#[trigger] content[i]) is Diff),
        },
    decreases content.len(),
{
    if content.len() == 0 {
        0
    } else {
        let before = content.drop_last();
        let place = the_first_diff_is_among_the_output(before);
        if first_diff(before) is Some {
            assert(before[place] == content[place]);
            assert forall|i: int| 0 <= i < place implies !((#[trigger] content[i]) is Diff) by {
                assert(before[i] == content[i]);
            }
            place
        } else {
            assert forall|i: int| 0 <= i < before.len() implies !((
            #[trigger] content[i]) is Diff) by {
                assert(before[i] == content[i]);
            }
            content.len() - 1
        }
    }
}

/// A call has a terminal exactly where a terminal is among its output, and only an image block
/// counts as an image.
pub proof fn output_is_told_apart(content: Seq<ToolCallContent>, i: int)
    requires
        0 <= i < content.len(),
    ensures
        content[i] is Terminal ==> has_terminal(content),
        has_terminal(content) ==> exists|j: int|
            0 <= j < content.len() && (#[trigger] content[j]) is Terminal,
        is_image(content[i]) <==> (match content[i] {
            ToolCallContent::ContentBlock(ContentBlock::Image { .. }) => true,
            _ => false,
        }),
{
}

/// A message of the user is neither a call that waits nor a monitor; a call is one of these by
/// its status and by what it runs as.
pub proof fn entries_are_told_apart(entry: AgentThreadEntry)
    ensures
        is_user_message(entry) ==> !is_waiting_call(entry) && !is_monitor_call(entry),
        match entry.content {
            EntryContent::UserMessage(_) => is_user_message(entry),
            EntryContent::ToolCall(call) => {
                &&& !is_user_message(entry)
                &&& call.status is WaitingForConfirmation <==> is_waiting_call(entry)
                &&& call.is_monitor == is_monitor_call(entry)
            },
            _ => !is_user_message(entry) && !is_waiting_call(entry) && !is_monitor_call(entry),
        },
{
}

/// The word for what only reads differs from the word for what can destroy.
pub proof fn risks_have_their_words()
    ensures
        ApprovalRisk::ReadOnly.word() == seq!['R', 'O'],
        ApprovalRisk::PotentiallyDestructive.word() == "Destructive"@,
        ApprovalRisk::ReadOnly.word() != ApprovalRisk::PotentiallyDestructive.word(),
{
    reveal_strlit("RO");
    reveal_strlit("Destructive");
    assert("RO"@ =~= seq!['R', 'O']);
    assert("Destructive"@.len() == 11);
}

} // verus!
