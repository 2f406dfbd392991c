//! The controls beside the message editor: sending, adding context, and the menu of the build
//! agent.

use crate::following::FollowToggle;
use crate::following;
use crate::model::{AcpThread, AgentPersona, Color, IconName, ThreadStatus};
use crate::model_controls::{FastModeControl, FastModeWarnings, NativeThread, ThinkingControl};
use crate::model_controls;
use crate::text;
use crate::thread_view::ThreadView;
use crate::thread_view;
use crate::usage::{TokenUsageView, UsageContext};
use crate::usage;
use vstd::prelude::*;
use vstd::string::*;

verus! {

/// The tooltip of the button that sends a message.
#[derive(Clone, Copy, PartialEq, Eq, Debug)]
pub enum SendTooltip {
    One(&'static str),
    /// The message can be queued or sent at once.
    Two(&'static str, &'static str),
}

/// The button that sends a message.
#[derive(Clone, Copy, PartialEq, Eq, Debug)]
pub enum SendButton {
    /// The context of the message is loading.
    Loading { tooltip: &'static str },
    /// A click stops the agent.
    Stop { icon: IconName, color: Color, tooltip: &'static str },
    Send { icon: IconName, color: Color, is_disabled: bool, tooltips: SendTooltip },
}

/// What the button that sends a message shows.
pub open spec fn send_button_shows(
    button: SendButton,
    is_loading: bool,
    is_generating: bool,
    is_editor_empty: bool,
) -> bool {
    if is_loading {
        button matches SendButton::Loading { tooltip } && tooltip@ == "Loading Added Context…"@
    } else if is_generating && is_editor_empty {
        button matches SendButton::Stop { icon, color, tooltip } && icon == IconName::Stop && color
            == Color::Error && tooltip@ == "Stop Generation"@
    } else {
        button matches SendButton::Send { icon, color, is_disabled, tooltips } && {
            &&& icon == (if is_generating {
                IconName::QueueMessage
            } else {
                IconName::Send
            })
            &&& is_disabled == is_editor_empty
            &&& color == (if is_editor_empty {
                Color::Muted
            } else {
                Color::Accent
            })
            &&& match tooltips {
                SendTooltip::One(text) => !is_generating && text@ == (if is_editor_empty {
                    "Type to Send"@
                } else {
                    "Send Message"@
                }),
                SendTooltip::Two(first, second) => is_generating && first@ == "Queue and Send"@
                    && second@ == "Send Immediately"@,
            }
        }
    }
}

/// A skill that the user can add to a message.
pub struct AvailableSkill {
    pub name: String,
    pub source: String,
}

/// What an entry of the menu for adding context does.
pub enum AddContextAction {
    /// Completes a mention of this type in the message editor.
    InsertContextType(&'static str),
    /// Offers the skills.
    Skills(Vec<String>),
    PickImages,
    AddSelection,
    InsertBranchDiff,
}

/// An entry of the menu for adding context.
pub struct AddContextEntry {
    pub label: &'static str,
    pub icon: IconName,
    pub is_disabled: bool,
    pub action: AddContextAction,
}

/// What the menu for adding context depends on.
pub struct AddContextInput<'a> {
    pub supports_images: bool,
    pub supports_embedded_context: bool,
    pub skills: &'a Vec<AvailableSkill>,
    pub has_editor_selection: bool,
    pub has_terminal_selection: bool,
}

/// Whether an entry completes a mention of a type.
pub open spec fn completes(
    entry: AddContextEntry,
    label: Seq<char>,
    icon: IconName,
    context_type: Seq<char>,
) -> bool {
    &&& entry.label@ == label
    &&& entry.icon == icon
    &&& !entry.is_disabled
    &&& entry.action matches AddContextAction::InsertContextType(name) && name@ == context_type
}

/// Whether an entry has this label, icon and state.
pub open spec fn entry_is(
    entry: AddContextEntry,
    label: Seq<char>,
    icon: IconName,
    is_disabled: bool,
) -> bool {
    entry.label@ == label && entry.icon == icon && entry.is_disabled == is_disabled
}

/// Whether an entry offers the skills, each with its source.
pub open spec fn offers_skills(entry: AddContextEntry, skills: Seq<AvailableSkill>) -> bool {
    &&& entry_is(entry, "Skills"@, IconName::Sparkle, false)
    &&& entry.action matches AddContextAction::Skills(labels) && {
        &&& labels@.len() == skills.len()
        &&& forall|i: int|
            0 <= i < skills.len() ==> (#[trigger] labels@[i])@ == skills[i].name@ + " ("@
                + skills[i].source@ + ")"@
    }
}

/// What the menu for adding context shows. Without skills it has no entry for them.
pub open spec fn add_context_menu_shows(
    menu: Seq<AddContextEntry>,
    input: AddContextInput,
) -> bool {
    let tail: int = if input.skills@.len() > 0 {
        4
    } else {
        3
    };
    &&& menu.len() == tail + 3
    &&& completes(menu[0], "Files & Directories"@, IconName::File, "file"@)
    &&& completes(menu[1], "Symbols"@, IconName::Code, "symbol"@)
    &&& completes(menu[2], "Threads"@, IconName::Thread, "thread"@)
    &&& input.skills@.len() > 0 ==> offers_skills(menu[3], input.skills@)
    &&& entry_is(menu[tail], "Image"@, IconName::Image, !input.supports_images)
    &&& menu[tail].action is PickImages
    &&& entry_is(
        menu[tail + 1],
        "Selection"@,
        IconName::CursorIBeam,
        !input.has_editor_selection && !input.has_terminal_selection,
    )
    &&& menu[tail + 1].action is AddSelection
    &&& entry_is(
        menu[tail + 2],
        "Branch Diff"@,
        IconName::GitBranch,
        !input.supports_embedded_context,
    )
    &&& menu[tail + 2].action is InsertBranchDiff
}

/// The label of a skill in the menu: its name and its source.
pub fn skill_menu_entry(skill: &AvailableSkill) -> (r: String)
    ensures
        r@ == skill.name@ + " ("@ + skill.source@ + ")"@,
{
    let mut label = text::concat3(skill.name.as_str(), " (", skill.source.as_str());
    label.append(")");
    label
}

fn skill_labels(skills: &Vec<AvailableSkill>) -> (labels: Vec<String>)
    ensures
        labels@.len() == skills@.len(),
        forall|i: int|
            0 <= i < skills@.len() ==> (#[trigger] labels@[i])@ == skills@[i].name@ + " ("@
                + skills@[i].source@ + ")"@,
{
    let mut labels: Vec<String> = Vec::new();
    let mut i: usize = 0;
    while i < skills.len()
        invariant
            i <= skills@.len(),
            labels@.len() == i,
            forall|j: int|
                0 <= j < i ==> (#[trigger] labels@[j])@ == skills@[j].name@ + " ("@
                    + skills@[j].source@ + ")"@,
        decreases skills@.len() - i,
    {
        labels.push(skill_menu_entry(&skills[i]));
        i = i + 1;
    }
    labels
}

fn mention_entry(label: &'static str, icon: IconName, context_type: &'static str) -> (r:
    AddContextEntry)
    ensures
        completes(r, label@, icon, context_type@),
{
    AddContextEntry {
        label,
        icon,
        is_disabled: false,
        action: AddContextAction::InsertContextType(context_type),
    }
}

/// The menu for adding context to a message.
pub fn build_add_context_menu(input: &AddContextInput) -> (r: Vec<AddContextEntry>)
    ensures
        add_context_menu_shows(r@, *input),
{
    let has_selection = input.has_editor_selection || input.has_terminal_selection;
    let mut menu: Vec<AddContextEntry> = Vec::new();
    menu.push(mention_entry("Files & Directories", IconName::File, "file"));
    menu.push(mention_entry("Symbols", IconName::Code, "symbol"));
    menu.push(mention_entry("Threads", IconName::Thread, "thread"));
    if input.skills.len() > 0 {
        menu.push(
            AddContextEntry {
                label: "Skills",
                icon: IconName::Sparkle,
                is_disabled: false,
                action: AddContextAction::Skills(skill_labels(input.skills)),
            },
        );
    }
    menu.push(
        AddContextEntry {
            label: "Image",
            icon: IconName::Image,
            is_disabled: !input.supports_images,
            action: AddContextAction::PickImages,
        },
    );
    menu.push(
        AddContextEntry {
            label: "Selection",
            icon: IconName::CursorIBeam,
            is_disabled: !has_selection,
            action: AddContextAction::AddSelection,
        },
    );
    menu.push(
        AddContextEntry {
            label: "Branch Diff",
            icon: IconName::GitBranch,
            is_disabled: !input.supports_embedded_context,
            action: AddContextAction::InsertBranchDiff,
        },
    );
    menu
}

/// What an agent may do.
#[derive(Clone, Copy, PartialEq, Eq, Structural, Debug)]
pub enum AgentCapabilityMode {
    ReadOnly,
    Full,
}

/// What an entry of the menu of the build agent does.
#[derive(Clone, Copy, PartialEq, Eq, Structural, Debug)]
pub enum GrokMenuAction {
    OpenTodosSurface,
    /// Sets the persona of a native thread and opens the todos surface.
    SetPersona(AgentPersona),
    /// Sets what a native thread may do and opens the todos surface.
    SetCapabilityMode(AgentCapabilityMode),
    ToggleProfileSelector,
}

/// A line of the menu of the build agent.
pub enum GrokMenuItem {
    Header(&'static str),
    Separator,
    Entry { label: String, action: GrokMenuAction },
}

/// The button of the build agent, and its menu.
pub struct GrokControls {
    pub button_label: String,
    pub color: Color,
    pub menu: Vec<GrokMenuItem>,
}

/// Whether the item is an entry with this label and action.
pub open spec fn item_is(item: GrokMenuItem, label: Seq<char>, action: GrokMenuAction) -> bool {
    item matches GrokMenuItem::Entry { label: shown, action: does } && shown@ == label && does
        == action
}

/// Whether the item is this header.
pub open spec fn header_is(item: GrokMenuItem, text: Seq<char>) -> bool {
    item matches GrokMenuItem::Header(shown) && shown@ == text
}

/// The label of the entry that opens the plan.
pub open spec fn plan_entry(in_plan_mode: bool) -> Seq<char> {
    if in_plan_mode {
        "Plan Mode ✓ (click to manage proposed plans in left pane)"@
    } else {
        "Enter Plan Mode (opens review surface)"@
    }
}

/// The label of the entry that spawns a subagent.
pub open spec fn spawn_entry(persona_name: Option<Seq<char>>) -> Seq<char> {
    match persona_name {
        Some(name) => "Spawn Subagent as "@ + name + "…"@,
        None => "Spawn Subagent with Persona…"@,
    }
}

/// The label of the button.
pub open spec fn grok_button_label(
    in_plan_mode: bool,
    persona_name: Option<Seq<char>>,
) -> Seq<char> {
    if in_plan_mode {
        "Grok Build · Plan"@
    } else {
        match persona_name {
            Some(name) => "Grok Build · "@ + name,
            None => "Grok Build"@,
        }
    }
}

/// What the first part of the menu of the build agent shows: the plan and the personas.
pub open spec fn persona_menu_shows(
    menu: Seq<GrokMenuItem>,
    in_plan_mode: bool,
    review_name: Seq<char>,
) -> bool {
    &&& menu.len() >= 8
    &&& header_is(menu[0], "Grok Build"@)
    &&& item_is(menu[1], plan_entry(in_plan_mode), GrokMenuAction::OpenTodosSurface)
    &&& menu[2] is Separator
    &&& header_is(menu[3], "Personas (for main thread & subagents)"@)
    &&& item_is(
        menu[4],
        "General (default)"@,
        GrokMenuAction::SetPersona(AgentPersona::General),
    )
    &&& item_is(menu[5], "Plan / Architect"@, GrokMenuAction::SetPersona(AgentPersona::Plan))
    &&& item_is(
        menu[6],
        "Researcher / Explorer"@,
        GrokMenuAction::SetPersona(AgentPersona::Researcher),
    )
    &&& item_is(
        menu[7],
        review_name + " / Verifier"@,
        GrokMenuAction::SetPersona(AgentPersona::Reviewer),
    )
}

/// What the menu of the build agent shows.
pub open spec fn grok_menu_shows(
    menu: Seq<GrokMenuItem>,
    in_plan_mode: bool,
    persona_name: Option<Seq<char>>,
    review_name: Seq<char>,
) -> bool {
    &&& menu.len() == 18
    &&& persona_menu_shows(menu, in_plan_mode, review_name)
    &&& menu[8] is Separator
    &&& item_is(
        menu[9],
        "Choose Persona… (profile selector)"@,
        GrokMenuAction::ToggleProfileSelector,
    )
    &&& item_is(menu[10], spawn_entry(persona_name), GrokMenuAction::OpenTodosSurface)
    &&& menu[11] is Separator
    &&& header_is(menu[12], "Capability Mode (Read-Only vs Full)"@)
    &&& item_is(
        menu[13],
        "Read-Only (safe exploration)"@,
        GrokMenuAction::SetCapabilityMode(AgentCapabilityMode::ReadOnly),
    )
    &&& item_is(
        menu[14],
        "Full (can edit, run commands, etc.)"@,
        GrokMenuAction::SetCapabilityMode(AgentCapabilityMode::Full),
    )
    &&& menu[15] is Separator
    &&& item_is(menu[16], "Manage Skills"@, GrokMenuAction::OpenTodosSurface)
    &&& item_is(menu[17], "Full Agent Mode (ZT-1)"@, GrokMenuAction::OpenTodosSurface)
}

fn menu_entry(label: &str, action: GrokMenuAction) -> (r: GrokMenuItem)
    ensures
        item_is(r, label@, action),
{
    GrokMenuItem::Entry { label: label.to_owned(), action }
}

fn persona_menu(in_plan_mode: bool, review_name: &str) -> (menu: Vec<GrokMenuItem>)
    ensures
        menu@.len() == 8,
        persona_menu_shows(menu@, in_plan_mode, review_name@),
{
    let plan_label = if in_plan_mode {
        "Plan Mode ✓ (click to manage proposed plans in left pane)"
    } else {
        "Enter Plan Mode (opens review surface)"
    };
    let mut menu: Vec<GrokMenuItem> = Vec::new();
    menu.push(GrokMenuItem::Header("Grok Build"));
    menu.push(menu_entry(plan_label, GrokMenuAction::OpenTodosSurface));
    menu.push(GrokMenuItem::Separator);
    menu.push(GrokMenuItem::Header("Personas (for main thread & subagents)"));
    menu.push(menu_entry("General (default)", GrokMenuAction::SetPersona(AgentPersona::General)));
    menu.push(menu_entry("Plan / Architect", GrokMenuAction::SetPersona(AgentPersona::Plan)));
    menu.push(
        menu_entry("Researcher / Explorer", GrokMenuAction::SetPersona(AgentPersona::Researcher)),
    );
    menu.push(
        menu_entry(
            text::concat2(review_name, " / Verifier").as_str(),
            GrokMenuAction::SetPersona(AgentPersona::Reviewer),
        ),
    );
    menu
}

fn grok_menu(in_plan_mode: bool, persona_name: Option<&str>, review_name: &str) -> (menu: Vec<
    GrokMenuItem,
>)
    ensures
        grok_menu_shows(
            menu@,
            in_plan_mode,
            text::reference_view(persona_name),
            review_name@,
        ),
{
    let mut menu = persona_menu(in_plan_mode, review_name);
    let ghost first = menu@;
    menu.push(GrokMenuItem::Separator);
    menu.push(
        menu_entry("Choose Persona… (profile selector)", GrokMenuAction::ToggleProfileSelector),
    );
    let spawn_label = match persona_name {
        Some(name) => text::concat3("Spawn Subagent as ", name, "…"),
        None => "Spawn Subagent with Persona…".to_owned(),
    };
    menu.push(menu_entry(spawn_label.as_str(), GrokMenuAction::OpenTodosSurface));
    menu.push(GrokMenuItem::Separator);
    menu.push(GrokMenuItem::Header("Capability Mode (Read-Only vs Full)"));
    menu.push(
        menu_entry(
            "Read-Only (safe exploration)",
            GrokMenuAction::SetCapabilityMode(AgentCapabilityMode::ReadOnly),
        ),
    );
    menu.push(
        menu_entry(
            "Full (can edit, run commands, etc.)",
            GrokMenuAction::SetCapabilityMode(AgentCapabilityMode::Full),
        ),
    );
    menu.push(GrokMenuItem::Separator);
    menu.push(menu_entry("Manage Skills", GrokMenuAction::OpenTodosSurface));
    menu.push(menu_entry("Full Agent Mode (ZT-1)", GrokMenuAction::OpenTodosSurface));
    assert forall|i: int| 0 <= i < 8 implies #[trigger] menu@[i] == first[i] by {}
    menu
}

/// What the menu of the build agent depends on besides the view and the thread.
pub struct GrokContext<'a> {
    pub native_is_grok_build_profile: bool,
    pub native_plan_is_proposed: bool,
    /// The name of the persona of the thread, where it has one.
    pub persona_name: &'a str,
    /// The name of the persona that looks over the work of others.
    pub review_name: &'a str,
}

/// The button that copies the session, so that it can be resumed elsewhere.
pub struct SessionIdCopy {
    pub session_id: String,
    pub tooltip: &'static str,
}

/// The button that makes the message editor large or small.
pub struct ExpandButton {
    pub icon: IconName,
    pub color: Color,
    pub tooltip: &'static str,
}

/// What stands where the agent's options are chosen.
#[derive(Clone, Copy, PartialEq, Eq, Structural, Debug)]
pub enum OptionControls {
    /// The agent has options of its own.
    ConfigOptions,
    Selectors { shows_mode_selector: bool, shows_model_selector: bool },
}

/// The message editor and the controls below it, in the order in which they are shown.
pub struct MessageEditorLayout {
    pub editor_expanded: bool,
    pub fills_container: bool,
    pub has_border_above: bool,
    pub expand_button: Option<ExpandButton>,
    pub add_context: Vec<AddContextEntry>,
    pub follow: FollowToggle,
    pub fast_mode: Option<FastModeControl>,
    pub thinking: Option<ThinkingControl>,
    pub token_usage: Option<TokenUsageView>,
    pub shows_profile_selector: bool,
    pub grok: Option<GrokControls>,
    pub options: OptionControls,
    pub send: SendButton,
}

/// What the message editor depends on besides the view and the thread.
pub struct MessageEditorContext<'a> {
    /// The number of items in the list of entries.
    pub item_count: usize,
    pub is_editor_empty: bool,
    pub workspace_follows: bool,
    /// The name of the agent that is built in.
    pub native_agent_id: &'a str,
    pub native: &'a Option<NativeThread>,
    pub warnings: &'a FastModeWarnings,
    pub is_effort_menu_deployed: bool,
    pub usage: UsageContext,
    pub grok: GrokContext<'a>,
    pub add_context: AddContextInput<'a>,
    pub has_profile_selector: bool,
    pub has_config_options: bool,
    pub has_mode_selector: bool,
    pub has_model_selector: bool,
}

/// The name of a persona that is shown: a thread without a persona shows none.
pub open spec fn shown_persona(thread: AcpThread, context: GrokContext) -> Option<Seq<char>> {
    match thread.persona {
        Some(_) => Some(context.persona_name@),
        None => None,
    }
}

/// What the controls of the build agent show.
pub open spec fn grok_controls_show(
    shown: Option<GrokControls>,
    view: ThreadView,
    thread: AcpThread,
    context: GrokContext,
) -> bool {
    &&& shown is Some <==> thread_view::is_grok(
        view.agent_id@,
        context.native_is_grok_build_profile,
    ) && !thread_view::in_full_grok_surface(view, context.native_is_grok_build_profile)
    &&& shown matches Some(controls) ==> {
        let in_plan_mode = thread.plan.is_proposed || context.native_plan_is_proposed;
        let persona_name = shown_persona(thread, context);
        &&& controls.button_label@ == grok_button_label(in_plan_mode, persona_name)
        &&& controls.color == Color::Muted
        &&& grok_menu_shows(controls.menu@, in_plan_mode, persona_name, context.review_name@)
    }
}

/// What the button that makes the message editor large or small shows.
pub open spec fn expand_button_shows(shown: Option<ExpandButton>, view: ThreadView) -> bool {
    shown matches Some(button) ==> {
        &&& button.color == Color::Muted
        &&& button.icon == (if view.editor_expanded {
            IconName::Minimize
        } else {
            IconName::Maximize
        })
        &&& button.tooltip@ == (if view.editor_expanded {
            "Minimize Message Editor"@
        } else {
            "Expand Message Editor"@
        })
    }
}

/// What the message editor and the controls below it show.
pub open spec fn message_editor_shows(
    layout: MessageEditorLayout,
    view: ThreadView,
    thread: AcpThread,
    context: MessageEditorContext,
) -> bool {
    let has_messages = context.item_count > 0;
    &&& layout.editor_expanded == view.editor_expanded
    &&& layout.fills_container == (!has_messages || view.editor_expanded)
    &&& layout.has_border_above == has_messages
    &&& layout.expand_button is Some <==> has_messages
    &&& expand_button_shows(layout.expand_button, view)
    &&& add_context_menu_shows(layout.add_context@, context.add_context)
    &&& following::follow_toggle_shows(
        layout.follow,
        view,
        thread.status,
        context.workspace_follows,
        context.native_agent_id@,
    )
    &&& model_controls::fast_mode_control_shows(
        layout.fast_mode,
        *context.native,
        context.warnings.dismissed@,
    )
    &&& model_controls::thinking_control_shows(
        layout.thinking,
        *context.native,
        context.is_effort_menu_deployed,
    )
    &&& layout.token_usage == usage::drawn_view(view, thread, context.usage)
    &&& layout.shows_profile_selector == context.has_profile_selector
    &&& grok_controls_show(layout.grok, view, thread, context.grok)
    &&& layout.options == (if context.has_config_options {
        OptionControls::ConfigOptions
    } else {
        OptionControls::Selectors {
            shows_mode_selector: context.has_mode_selector,
            shows_model_selector: context.has_model_selector,
        }
    })
    &&& send_button_shows(
        layout.send,
        view.is_loading_contents,
        thread.status != ThreadStatus::Idle,
        context.is_editor_empty,
    )
}

impl ThreadView {
    /// The button that sends a message.
    pub fn render_send_button(&self, thread: &AcpThread, is_editor_empty: bool) -> (r: SendButton)
        ensures
            send_button_shows(
                r,
                self.is_loading_contents,
                thread.status != ThreadStatus::Idle,
                is_editor_empty,
            ),
    {
        let is_generating = thread.status != ThreadStatus::Idle;
        if self.is_loading_contents {
            SendButton::Loading { tooltip: "Loading Added Context…" }
        } else if is_generating && is_editor_empty {
            SendButton::Stop {
                icon: IconName::Stop,
                color: Color::Error,
                tooltip: "Stop Generation",
            }
        } else {
            let icon = if is_generating {
                IconName::QueueMessage
            } else {
                IconName::Send
            };
            let is_disabled = is_editor_empty && !is_generating;
            let color = if is_disabled {
                Color::Muted
            } else {
                Color::Accent
            };
            let tooltips = if is_disabled {
                SendTooltip::One("Type to Send")
            } else if is_generating {
                SendTooltip::Two("Queue and Send", "Send Immediately")
            } else {
                SendTooltip::One("Send Message")
            };
            SendButton::Send { icon, color, is_disabled, tooltips }
        }
    }

    /// The button of the build agent, and its menu. While the todos surface of the view is
    /// open, the controls are there and not here.
    pub fn render_grok_controls(&self, thread: &AcpThread, context: &GrokContext) -> (r: Option<
        GrokControls,
    >)
        ensures
            grok_controls_show(r, *self, *thread, *context),
    {
        if !self.is_grok_build_profile(context.native_is_grok_build_profile) {
            return None;
        }
        if self.is_in_full_grok_surface(context.native_is_grok_build_profile) {
            return None;
        }
        let in_plan_mode = thread.plan.is_proposed || context.native_plan_is_proposed;
        let persona_name: Option<&str> = match thread.persona {
            Some(_) => Some(context.persona_name),
            None => None,
        };
        let button_label = if in_plan_mode {
            "Grok Build · Plan".to_owned()
        } else {
            match persona_name {
                Some(name) => text::concat2("Grok Build · ", name),
                None => "Grok Build".to_owned(),
            }
        };
        Some(
            GrokControls {
                button_label,
                color: Color::Muted,
                menu: grok_menu(in_plan_mode, persona_name, context.review_name),
            },
        )
    }

    /// The message editor and the controls below it. A view of a subagent has none.
    pub fn render_message_editor(&self, thread: &AcpThread, context: &MessageEditorContext) -> (r:
        Option<MessageEditorLayout>)
        ensures
            r is Some <==> self.parent_session_id is None,
            r matches Some(layout) ==> message_editor_shows(layout, *self, *thread, *context),
    {
        if self.is_subagent() {
            return None;
        }
        let has_messages = context.item_count > 0;
        let expand_button = if has_messages {
            let (icon, tooltip): (IconName, &'static str) = if self.editor_expanded {
                (IconName::Minimize, "Minimize Message Editor")
            } else {
                (IconName::Maximize, "Expand Message Editor")
            };
            Some(ExpandButton { icon, color: Color::Muted, tooltip })
        } else {
            None
        };
        let options = if context.has_config_options {
            OptionControls::ConfigOptions
        } else {
            OptionControls::Selectors {
                shows_mode_selector: context.has_mode_selector,
                shows_model_selector: context.has_model_selector,
            }
        };
        Some(
            MessageEditorLayout {
                editor_expanded: self.editor_expanded,
                fills_container: !has_messages || self.editor_expanded,
                has_border_above: has_messages,
                expand_button,
                add_context: build_add_context_menu(&context.add_context),
                follow: self.render_follow_toggle(
                    thread.status,
                    context.workspace_follows,
                    context.native_agent_id,
                ),
                fast_mode: self.render_fast_mode_control(context.native, context.warnings),
                thinking: self.render_thinking_control(
                    context.native,
                    context.is_effort_menu_deployed,
                ),
                token_usage: self.render_token_usage(thread, &context.usage),
                shows_profile_selector: context.has_profile_selector,
                grok: self.render_grok_controls(thread, &context.grok),
                options,
                send: self.render_send_button(thread, context.is_editor_empty),
            },
        )
    }

    /// The button that copies the session, so that it can be resumed elsewhere.
    pub fn render_grok_session_id_copy(&self) -> (r: SessionIdCopy)
        ensures
            r.session_id@ == self.session_id@,
            r.tooltip@
                == "Copy full Grok session ID for resuming this thread (plans, monitors, subagents, memory) in the standalone Grok TUI with `grok -r <id>`"@,
    {
        SessionIdCopy {
            session_id: self.session_id.clone(),
            tooltip: "Copy full Grok session ID for resuming this thread (plans, monitors, subagents, memory) in the standalone Grok TUI with `grok -r <id>`",
        }
    }
}

/// An empty message can neither be sent nor queued: the button then loads, stops the agent or
/// is disabled.
pub proof fn an_empty_message_cannot_be_sent(
    button: SendButton,
    is_loading: bool,
    is_generating: bool,
)
    requires
        send_button_shows(button, is_loading, is_generating, true),
    ensures
        button matches SendButton::Send { is_disabled, .. } ==> is_disabled,
{
}

/// The button loads while contents are loaded, stops an agent at work where there is nothing to
/// send, and else sends, or queues while the agent is at work.
pub proof fn the_button_does_what_is_due(
    button: SendButton,
    is_loading: bool,
    is_generating: bool,
    is_editor_empty: bool,
)
    requires
        send_button_shows(button, is_loading, is_generating, is_editor_empty),
    ensures
        button is Loading <==> is_loading,
        button is Stop <==> !is_loading && is_generating && is_editor_empty,
        button is Send <==> !is_loading && !(is_generating && is_editor_empty),
        button matches SendButton::Loading { tooltip } ==> tooltip@ == "Loading Added Context…"@,
        button matches SendButton::Stop { icon, color, tooltip } ==> icon == IconName::Stop && color
            == Color::Error && tooltip@ == "Stop Generation"@,
        button matches SendButton::Send { icon, color, is_disabled, tooltips } ==> {
            &&& icon == IconName::QueueMessage <==> is_generating
            &&& icon == IconName::Send <==> !is_generating
            &&& is_disabled <==> is_editor_empty
            &&& color == Color::Accent <==> !is_editor_empty
            &&& color == Color::Muted <==> is_editor_empty
            &&& tooltips is Two <==> is_generating
            &&& tooltips matches SendTooltip::One(text) ==> (is_editor_empty ==> text@
                == "Type to Send"@) && (!is_editor_empty ==> text@ == "Send Message"@)
            &&& tooltips matches SendTooltip::Two(first, second) ==> first@ == "Queue and Send"@
                && second@ == "Send Immediately"@
        },
{
}

/// The menu for adding context offers files, symbols and threads first, the skills where there
/// are any, and then images, the selection and the branch, each where it is possible.
pub proof fn the_menu_offers_what_is_possible(
    menu: Seq<AddContextEntry>,
    input: AddContextInput,
    i: int,
)
    requires
        add_context_menu_shows(menu, input),
    ensures
        menu.len() == (if input.skills@.len() == 0 {
            6nat
        } else {
            7nat
        }),
        menu[0].label@ == "Files & Directories"@ && !menu[0].is_disabled && (
        menu[0].action matches AddContextAction::InsertContextType(name) && name@ == "file"@),
        menu[1].label@ == "Symbols"@ && !menu[1].is_disabled && (menu[1].action matches
            AddContextAction::InsertContextType(name) && name@ == "symbol"@),
        menu[2].label@ == "Threads"@ && !menu[2].is_disabled && (menu[2].action matches
            AddContextAction::InsertContextType(name) && name@ == "thread"@),
        input.skills@.len() > 0 ==> menu[3].label@ == "Skills"@ && !menu[3].is_disabled && (
        menu[3].action matches AddContextAction::Skills(labels) && labels@.len()
            == input.skills@.len() && (0 <= i < labels@.len() ==> labels@[i]@
            == input.skills@[i].name@ + seq![' ', '('] + input.skills@[i].source@ + seq![')'])),
        menu[menu.len() - 3].action is PickImages && menu[menu.len() - 3].label@ == "Image"@ && (
        menu[menu.len() - 3].is_disabled <==> !input.supports_images),
        menu[menu.len() - 2].action is AddSelection && menu[menu.len() - 2].label@ == "Selection"@
            && (menu[menu.len() - 2].is_disabled <==> !input.has_editor_selection
            && !input.has_terminal_selection),
        menu[menu.len() - 1].action is InsertBranchDiff && menu[menu.len() - 1].label@
            == "Branch Diff"@ && (menu[menu.len() - 1].is_disabled
            <==> !input.supports_embedded_context),
{
    reveal_strlit(" (");
    reveal_strlit(")");
    assert(" ("@ =~= seq![' ', '(']);
    assert(")"@ =~= seq![')']);
}

/// The menu of the build agent is there where its full surface is not open. It names the plan
/// mode and the persona, and each of its entries does what it says.
pub proof fn the_menu_of_the_build_agent_does_what_it_says(
    shown: Option<GrokControls>,
    view: ThreadView,
    thread: AcpThread,
    context: GrokContext,
)
    requires
        grok_controls_show(shown, view, thread, context),
    ensures
        shown is Some <==> (view.agent_id@ == "grok"@ || context.native_is_grok_build_profile)
            && !view.zed_todos.state.approvals_expanded && !view.zed_todos.state.plan_expanded
            && !view.zed_todos.state.background_tasks_expanded
            && !view.zed_todos.state.grok_memory_expanded,
        shown matches Some(controls) ==> {
            let plans = thread.plan.is_proposed || context.native_plan_is_proposed;
            let menu = controls.menu@;
            &&& plans ==> controls.button_label@ == "Grok Build · Plan"@
            &&& !plans && thread.persona is Some ==> controls.button_label@ == "Grok Build · "@
                + context.persona_name@
            &&& !plans && thread.persona is None ==> controls.button_label@ == "Grok Build"@
            &&& menu.len() == 18
            &&& menu[1] matches GrokMenuItem::Entry { label, action } && action
                == GrokMenuAction::OpenTodosSurface && label@ == (if plans {
                "Plan Mode ✓ (click to manage proposed plans in left pane)"@
            } else {
                "Enter Plan Mode (opens review surface)"@
            })
            &&& menu[4] matches GrokMenuItem::Entry { label, action } && action
                == GrokMenuAction::SetPersona(AgentPersona::General) && label@
                == "General (default)"@
            &&& menu[5] matches GrokMenuItem::Entry { label, action } && action
                == GrokMenuAction::SetPersona(AgentPersona::Plan) && label@ == "Plan / Architect"@
            &&& menu[6] matches GrokMenuItem::Entry { label, action } && action
                == GrokMenuAction::SetPersona(AgentPersona::Researcher) && label@
                == "Researcher / Explorer"@
            &&& menu[7] matches GrokMenuItem::Entry { label, action } && action
                == GrokMenuAction::SetPersona(AgentPersona::Reviewer) && label@
                == context.review_name@ + " / Verifier"@
            &&& menu[9] matches GrokMenuItem::Entry { action, .. } && action
                == GrokMenuAction::ToggleProfileSelector
            &&& menu[10] matches GrokMenuItem::Entry { label, action } && action
                == GrokMenuAction::OpenTodosSurface && label@ == (if thread.persona is Some {
                "Spawn Subagent as "@ + context.persona_name@ + "…"@
            } else {
                "Spawn Subagent with Persona…"@
            })
            &&& menu[13] matches GrokMenuItem::Entry { label, action } && action
                == GrokMenuAction::SetCapabilityMode(AgentCapabilityMode::ReadOnly) && label@
                == "Read-Only (safe exploration)"@
            &&& menu[14] matches GrokMenuItem::Entry { label, action } && action
                == GrokMenuAction::SetCapabilityMode(AgentCapabilityMode::Full) && label@
                == "Full (can edit, run commands, etc.)"@
            &&& menu[16] matches GrokMenuItem::Entry { label, action } && action
                == GrokMenuAction::OpenTodosSurface && label@ == "Manage Skills"@
            &&& menu[17] matches GrokMenuItem::Entry { label, action } && action
                == GrokMenuAction::OpenTodosSurface && label@ == "Full Agent Mode (ZT-1)"@
            &&& menu[0] is Header && menu[3] is Header && menu[12] is Header
            &&& menu[2] is Separator && menu[8] is Separator && menu[11] is Separator && menu[15]
                is Separator
        },
{
}

/// The message editor fills a thread without messages, and can be made large once there are some.
/// Its controls are those of its thread, and the options of the agent come before the selectors.
pub proof fn the_editor_has_its_controls(
    layout: MessageEditorLayout,
    view: ThreadView,
    thread: AcpThread,
    context: MessageEditorContext,
)
    requires
        message_editor_shows(layout, view, thread, context),
    ensures
        layout.editor_expanded == view.editor_expanded,
        layout.fills_container <==> view.editor_expanded || context.item_count == 0,
        layout.has_border_above <==> context.item_count != 0,
        layout.expand_button is Some <==> context.item_count != 0,
        layout.expand_button matches Some(button) ==> {
            &&& button.icon == IconName::Minimize <==> view.editor_expanded
            &&& button.icon == IconName::Maximize <==> !view.editor_expanded
            &&& view.editor_expanded ==> button.tooltip@ == "Minimize Message Editor"@
            &&& !view.editor_expanded ==> button.tooltip@ == "Expand Message Editor"@
        },
        layout.shows_profile_selector == context.has_profile_selector,
        layout.options is ConfigOptions <==> context.has_config_options,
        layout.options matches OptionControls::Selectors {
            shows_mode_selector,
            shows_model_selector,
        } ==> shows_mode_selector == context.has_mode_selector && shows_model_selector
            == context.has_model_selector,
        layout.send is Loading <==> view.is_loading_contents,
        layout.send is Stop <==> !view.is_loading_contents && thread.status
            == ThreadStatus::Generating && context.is_editor_empty,
        layout.fast_mode is Some <==> model_controls::has_fast_mode(*context.native),
        layout.thinking is Some ==> *context.native is Some,
        layout.token_usage == usage::drawn_view(view, thread, context.usage),
        layout.follow.is_toggled == following::follows(
            view,
            thread.status,
            context.workspace_follows,
        ),
        layout.add_context@.len() >= 6,
{
}

/// The headings of the menu of the build agent, and the way to every persona.
pub proof fn the_menu_of_the_build_agent_has_its_headings(
    shown: GrokControls,
    view: ThreadView,
    thread: AcpThread,
    context: GrokContext,
)
    requires
        grok_controls_show(Some(shown), view, thread, context),
    ensures
        shown.menu@[3] matches GrokMenuItem::Header(words) && words@
            == "Personas (for main thread & subagents)"@,
        shown.menu@[9] matches GrokMenuItem::Entry { label, .. } && label@
            == "Choose Persona… (profile selector)"@,
        shown.menu@[12] matches GrokMenuItem::Header(words) && words@
            == "Capability Mode (Read-Only vs Full)"@,
{
}

/// The buttons of the editor and of the build agent are drawn in the muted colour.
pub proof fn the_buttons_have_their_colours(
    layout: MessageEditorLayout,
    view: ThreadView,
    thread: AcpThread,
    context: MessageEditorContext,
    shown: Option<GrokControls>,
    grok_context: GrokContext,
)
    requires
        message_editor_shows(layout, view, thread, context),
        grok_controls_show(shown, view, thread, grok_context),
    ensures
        shown matches Some(controls) ==> controls.color == Color::Muted,
        layout.expand_button matches Some(button) ==> button.color == Color::Muted,
{
}

/// The entries of the menu for adding context have their icons.
pub proof fn the_entries_of_the_menu_have_icons(menu: Seq<AddContextEntry>, input: AddContextInput)
    requires
        add_context_menu_shows(menu, input),
    ensures
        menu[0].icon == IconName::File,
        menu[1].icon == IconName::Code,
        menu[2].icon == IconName::Thread,
        menu[menu.len() - 3].icon == IconName::Image,
        menu[menu.len() - 2].icon == IconName::CursorIBeam,
        menu[menu.len() - 1].icon == IconName::GitBranch,
{
}

/// The parts of the message editor show the thread and the model that they are for.
pub proof fn the_editor_shows_its_thread(
    layout: MessageEditorLayout,
    view: ThreadView,
    thread: AcpThread,
    context: MessageEditorContext,
)
    requires
        message_editor_shows(layout, view, thread, context),
    ensures
        send_button_shows(
            layout.send,
            view.is_loading_contents,
            thread.status == ThreadStatus::Generating,
            context.is_editor_empty,
        ),
        add_context_menu_shows(layout.add_context@, context.add_context),
        grok_controls_show(layout.grok, view, thread, context.grok),
        following::follow_toggle_shows(
            layout.follow,
            view,
            thread.status,
            context.workspace_follows,
            context.native_agent_id@,
        ),
        model_controls::fast_mode_control_shows(
            layout.fast_mode,
            *context.native,
            context.warnings.dismissed@,
        ),
        model_controls::thinking_control_shows(
            layout.thinking,
            *context.native,
            context.is_effort_menu_deployed,
        ),
{
}

} // verus!
