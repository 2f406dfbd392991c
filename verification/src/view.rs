//! The thread view as a whole: its parts in order, and what its actions do.

use crate::activity::{ActivityBar, ActivityContext};
use crate::activity;
use crate::callouts::{Callout, NewVersionCallout};
use crate::callouts;
use crate::editor_controls::{MessageEditorContext, MessageEditorLayout};
use crate::editor_controls;
use crate::model::{AcpThread, ThreadStatus, ToolCall};
use crate::model_controls::NativeThread;
use crate::sending::Cancellation;
use crate::sending;
use crate::subagent::SubagentTitlebar;
use crate::subagent;
use crate::text;
use crate::thread_view::ThreadView;
use vstd::prelude::*;
use vstd::string::*;

verus! {

/// The parts of a thread view, from top to bottom.
pub struct ThreadLayout {
    pub titlebar: Option<SubagentTitlebar>,
    pub resume_notice: Option<Callout>,
    /// Whether the list of entries is shown.
    pub shows_entries: bool,
    pub multi_root: Option<Callout>,
    pub skill_errors: Vec<Callout>,
    pub activity: Option<ActivityBar>,
    pub external_source_warning: Option<Callout>,
    pub codex_warning: Option<Callout>,
    pub retry: Option<Callout>,
    pub error: Option<Callout>,
    pub new_version: Option<NewVersionCallout>,
    pub token_limit: Option<Callout>,
    pub editor: Option<MessageEditorLayout>,
}

/// What the view depends on besides itself and the thread.
pub struct ViewContext<'a> {
    /// The call that has spawned the agent of the view.
    pub spawning_call: Option<&'a ToolCall>,
    pub has_native_connection: bool,
    pub supports_additional_directories: bool,
    /// The number of folders of the project, while it is there.
    pub worktree_count: Option<usize>,
    /// The name of the first folder of the thread, where the thread has folders.
    pub work_dirs: Option<&'a Option<String>>,
    pub now: u64,
    /// The name of the model or agent.
    pub name: &'a str,
    pub activity: ActivityContext<'a>,
    pub editor: MessageEditorContext<'a>,
}

/// What the callouts above the activity bar show.
pub open spec fn upper_callouts_show(
    layout: ThreadLayout,
    view: ThreadView,
    context: ViewContext,
) -> bool {
    &&& layout.resume_notice is Some <==> view.resumed_without_history
    &&& layout.resume_notice matches Some(callout) ==> callouts::is_resume_notice(callout)
    &&& callouts::multi_root_shows(
        layout.multi_root,
        view,
        context.has_native_connection,
        context.supports_additional_directories,
        context.worktree_count,
        context.work_dirs,
    )
    &&& callouts::skill_errors_show(layout.skill_errors@, view.skill_loading_errors@)
}

/// What the callouts below the activity bar show.
pub open spec fn lower_callouts_show(
    layout: ThreadLayout,
    before: ThreadView,
    thread: AcpThread,
    context: ViewContext,
) -> bool {
    &&& layout.external_source_warning is Some <==> before.show_external_source_prompt_warning
    &&& layout.external_source_warning matches Some(callout)
        ==> callouts::is_external_source_warning(callout)
    &&& layout.codex_warning is Some <==> before.show_codex_windows_warning
    &&& layout.codex_warning matches Some(callout) ==> callouts::is_codex_warning(callout)
    &&& callouts::retry_shows(layout.retry, before, context.now)
    &&& callouts::thread_error_shows(layout.error, before, thread.can_retry, context.name@)
    &&& layout.new_version is Some <==> context.editor.item_count == 0
        && before.new_server_version_available is Some
    &&& match (layout.new_version, before.new_server_version_available) {
        (Some(callout), Some(version)) => callouts::new_version_shows(callout, version@),
        _ => true,
    }
    &&& callouts::token_limit_shows(
        layout.token_limit,
        before,
        *context.editor.native is Some,
        if thread.token_usage is Some {
            Some(thread.token_usage_ratio)
        } else {
            None
        },
    )
}

/// What the parts of a view show.
pub open spec fn layout_shows(
    layout: ThreadLayout,
    before: ThreadView,
    after: ThreadView,
    thread: AcpThread,
    context: ViewContext,
) -> bool {
    &&& layout.titlebar is Some <==> before.parent_session_id is Some && thread.parent_session_id
        is Some
    &&& layout.titlebar matches Some(bar) ==> subagent::titlebar_shows(
        bar,
        thread,
        context.spawning_call matches Some(call) && call.status.ended_badly(),
    )
    &&& layout.shows_entries == (context.editor.item_count > 0)
    &&& upper_callouts_show(layout, before, context)
    &&& layout.activity is Some <==> activity::has_activity(after, thread, context.activity)
    &&& layout.activity matches Some(bar) ==> activity::activity_bar_shows(
        bar,
        after,
        thread,
        context.activity,
    )
    &&& lower_callouts_show(layout, before, thread, context)
    &&& layout.editor is Some <==> before.parent_session_id is None
    &&& layout.editor matches Some(editor) ==> editor_controls::message_editor_shows(
        editor,
        after,
        thread,
        context.editor,
    )
}

/// The menus and selectors that an action opens or cycles.
#[derive(Clone, Copy, PartialEq, Eq, Structural, Debug)]
pub enum SelectorAction {
    CycleThinkingEffort,
    ToggleThinkingEffortMenu,
    ToggleProfileSelector,
    CycleModeSelector,
    ToggleModelSelector,
    CycleFavoriteModels,
}

/// The groups of options that an agent can have of its own.
#[derive(Clone, Copy, PartialEq, Eq, Structural, Debug)]
pub enum OptionCategory {
    ThoughtLevel,
    Mode,
    Model,
}

/// What the options of an agent are asked to do.
#[derive(Clone, Copy, PartialEq, Eq, Structural, Debug)]
pub enum OptionRequest {
    Toggle(OptionCategory),
    Cycle { category: OptionCategory, favorites_only: bool },
}

/// What an action does where the options of the agent have not taken it.
#[derive(Clone, Copy, PartialEq, Eq, Structural, Debug)]
pub enum SelectorTarget {
    Nothing,
    CycleNativeEffort,
    ToggleEffortMenu,
    ToggleProfileMenu,
    ToggleModeMenu,
    CycleProfile,
    CycleMode,
    ToggleModelMenu,
    CycleFavoriteModels,
}

/// The selectors that a view has.
#[derive(Clone, Copy, PartialEq, Eq, Structural, Debug)]
pub struct Selectors {
    pub has_profile_selector: bool,
    pub has_mode_selector: bool,
    pub has_model_selector: bool,
}

/// Whether an action does anything: all but one wait until the agent is idle.
pub open spec fn selector_action_applies(action: SelectorAction, status: ThreadStatus) -> bool {
    action == SelectorAction::ToggleProfileSelector || status == ThreadStatus::Idle
}

/// What the options of the agent are asked to do.
pub open spec fn option_request(action: SelectorAction) -> OptionRequest {
    match action {
        SelectorAction::CycleThinkingEffort => OptionRequest::Cycle {
            category: OptionCategory::ThoughtLevel,
            favorites_only: false,
        },
        SelectorAction::ToggleThinkingEffortMenu => OptionRequest::Toggle(
            OptionCategory::ThoughtLevel,
        ),
        SelectorAction::ToggleProfileSelector => OptionRequest::Toggle(OptionCategory::Mode),
        SelectorAction::CycleModeSelector => OptionRequest::Cycle {
            category: OptionCategory::Mode,
            favorites_only: false,
        },
        SelectorAction::ToggleModelSelector => OptionRequest::Toggle(OptionCategory::Model),
        SelectorAction::CycleFavoriteModels => OptionRequest::Cycle {
            category: OptionCategory::Model,
            favorites_only: true,
        },
    }
}

/// What an action does without options of the agent. The profiles come before the modes.
pub open spec fn selector_target(action: SelectorAction, selectors: Selectors) -> SelectorTarget {
    match action {
        SelectorAction::CycleThinkingEffort => SelectorTarget::CycleNativeEffort,
        SelectorAction::ToggleThinkingEffortMenu => SelectorTarget::ToggleEffortMenu,
        SelectorAction::ToggleProfileSelector => if selectors.has_profile_selector {
            SelectorTarget::ToggleProfileMenu
        } else if selectors.has_mode_selector {
            SelectorTarget::ToggleModeMenu
        } else {
            SelectorTarget::Nothing
        },
        SelectorAction::CycleModeSelector => if selectors.has_profile_selector {
            SelectorTarget::CycleProfile
        } else if selectors.has_mode_selector {
            SelectorTarget::CycleMode
        } else {
            SelectorTarget::Nothing
        },
        SelectorAction::ToggleModelSelector => if selectors.has_model_selector {
            SelectorTarget::ToggleModelMenu
        } else {
            SelectorTarget::Nothing
        },
        SelectorAction::CycleFavoriteModels => if selectors.has_model_selector {
            SelectorTarget::CycleFavoriteModels
        } else {
            SelectorTarget::Nothing
        },
    }
}

/// What the options of the agent are asked to do by an action, where it does anything.
pub fn request_options(action: SelectorAction, status: ThreadStatus) -> (r: Option<OptionRequest>)
    ensures
        r == (if selector_action_applies(action, status) {
            Some(option_request(action))
        } else {
            None
        }),
{
    let is_idle = status == ThreadStatus::Idle;
    match action {
        SelectorAction::ToggleProfileSelector => Some(OptionRequest::Toggle(OptionCategory::Mode)),
        SelectorAction::CycleThinkingEffort => if is_idle {
            Some(
                OptionRequest::Cycle {
                    category: OptionCategory::ThoughtLevel,
                    favorites_only: false,
                },
            )
        } else {
            None
        },
        SelectorAction::ToggleThinkingEffortMenu => if is_idle {
            Some(OptionRequest::Toggle(OptionCategory::ThoughtLevel))
        } else {
            None
        },
        SelectorAction::CycleModeSelector => if is_idle {
            Some(OptionRequest::Cycle { category: OptionCategory::Mode, favorites_only: false })
        } else {
            None
        },
        SelectorAction::ToggleModelSelector => if is_idle {
            Some(OptionRequest::Toggle(OptionCategory::Model))
        } else {
            None
        },
        SelectorAction::CycleFavoriteModels => if is_idle {
            Some(OptionRequest::Cycle { category: OptionCategory::Model, favorites_only: true })
        } else {
            None
        },
    }
}

/// What an action does, once the options of the agent were asked. `handled` says whether they
/// have taken the action; without options they have not.
pub fn handle_selector_action(
    action: SelectorAction,
    status: ThreadStatus,
    handled: bool,
    selectors: Selectors,
) -> (r: SelectorTarget)
    ensures
        r == (if selector_action_applies(action, status) && !handled {
            selector_target(action, selectors)
        } else {
            SelectorTarget::Nothing
        }),
{
    if request_options(action, status).is_none() || handled {
        return SelectorTarget::Nothing;
    }
    match action {
        SelectorAction::CycleThinkingEffort => SelectorTarget::CycleNativeEffort,
        SelectorAction::ToggleThinkingEffortMenu => SelectorTarget::ToggleEffortMenu,
        SelectorAction::ToggleProfileSelector => if selectors.has_profile_selector {
            SelectorTarget::ToggleProfileMenu
        } else if selectors.has_mode_selector {
            SelectorTarget::ToggleModeMenu
        } else {
            SelectorTarget::Nothing
        },
        SelectorAction::CycleModeSelector => if selectors.has_profile_selector {
            SelectorTarget::CycleProfile
        } else if selectors.has_mode_selector {
            SelectorTarget::CycleMode
        } else {
            SelectorTarget::Nothing
        },
        SelectorAction::ToggleModelSelector => if selectors.has_model_selector {
            SelectorTarget::ToggleModelMenu
        } else {
            SelectorTarget::Nothing
        },
        SelectorAction::CycleFavoriteModels => if selectors.has_model_selector {
            SelectorTarget::CycleFavoriteModels
        } else {
            SelectorTarget::Nothing
        },
    }
}

/// A model that can be selected.
pub struct ModelInfo {
    pub id: String,
    pub name: String,
}

impl ThreadView {
    /// The view as it is drawn.
    pub fn render(&mut self, thread: &AcpThread, context: &ViewContext) -> (r: ThreadLayout)
        requires
            activity::pending_has_room(*thread, context.activity.pending),
        ensures
            *final(self) == (ThreadView {
                thread_error_markdown: final(self).thread_error_markdown,
                ..*old(self)
            }),
            text::optional_view(final(self).thread_error_markdown) == callouts::kept_markdown(
                *old(self),
            ),
            layout_shows(r, *old(self), *final(self), *thread, *context),
    {
        let error = self.render_thread_error(thread.can_retry, context.name);
        let has_messages = context.editor.item_count > 0;
        let resume_notice = if self.resumed_without_history {
            Some(callouts::render_resume_notice())
        } else {
            None
        };
        let external_source_warning = if self.show_external_source_prompt_warning {
            Some(callouts::render_external_source_prompt_warning())
        } else {
            None
        };
        let codex_warning = if self.show_codex_windows_warning {
            Some(callouts::render_codex_windows_warning())
        } else {
            None
        };
        let new_version = match &self.new_server_version_available {
            Some(version) => if has_messages {
                None
            } else {
                Some(callouts::render_new_version_callout(version.as_str()))
            },
            None => None,
        };
        let ratio = if thread.token_usage.is_some() {
            Some(thread.token_usage_ratio)
        } else {
            None
        };
        ThreadLayout {
            titlebar: self.render_subagent_titlebar(thread, context.spawning_call),
            resume_notice,
            shows_entries: has_messages,
            multi_root: self.render_multi_root_callout(
                context.has_native_connection,
                context.supports_additional_directories,
                context.worktree_count,
                context.work_dirs,
            ),
            skill_errors: callouts::render_skill_loading_errors(&self.skill_loading_errors),
            activity: self.render_activity_bar(thread, &context.activity),
            external_source_warning,
            codex_warning,
            retry: self.render_thread_retry_status_callout(context.now),
            error,
            new_version,
            token_limit: self.render_token_limit_callout(context.editor.native.is_some(), ratio),
            editor: self.render_message_editor(thread, &context.editor),
        }
    }

    /// Cancels the generation of a root thread, by the key that closes menus. `thread` is the
    /// thread after that. Nothing happens to the thread of a subagent.
    pub fn handle_cancel(&mut self, thread: &AcpThread) -> (r: Option<Cancellation>)
        ensures
            *final(self) == (if old(self).parent_session_id is None {
                sending::canceled(*old(self), *thread)
            } else {
                *old(self)
            }),
            r == (if old(self).parent_session_id is None {
                Some(
                    Cancellation { indicator: sending::thread_indicator(*old(self), *thread) },
                )
            } else {
                None
            }),
    {
        if self.parent_session_id.is_some() {
            return None;
        }
        Some(Cancellation { indicator: self.cancel_generation(thread) })
    }

    /// The thread that the user goes back to: the parent, where there is one.
    pub fn go_back(&self, thread: &AcpThread) -> (r: Option<String>)
        ensures
            text::optional_view(r) == text::optional_view(thread.parent_session_id),
    {
        text::copy_option(&thread.parent_session_id)
    }

    /// Whether a native thread thinks after the action that toggles it. Nothing happens while
    /// the agent works, or in another thread.
    pub fn toggle_thinking_mode(&self, status: ThreadStatus, native: &Option<NativeThread>) -> (r:
        Option<bool>)
        ensures
            r == (match *native {
                Some(native) => if status == ThreadStatus::Idle {
                    Some(!native.thinking_enabled)
                } else {
                    None
                },
                None => None,
            }),
    {
        if status != ThreadStatus::Idle {
            return None;
        }
        match native {
            Some(native) => Some(!native.thinking_enabled),
            None => None,
        }
    }

    /// The identifier of the selected model.
    pub fn current_model_id(&self, active_model: Option<&ModelInfo>) -> (r: Option<String>)
        ensures
            text::optional_view(r) == (match active_model {
                Some(model) => Some(model.id@),
                None => None,
            }),
    {
        match active_model {
            Some(model) => Some(model.id.clone()),
            None => None,
        }
    }

    /// The identifier of the mode: the profile of a native thread, else the selected mode.
    pub fn current_mode_id(&self, native_profile: &Option<String>, mode: &Option<String>) -> (r:
        Option<String>)
        ensures
            text::optional_view(r) == (match *native_profile {
                Some(profile) => Some(profile@),
                None => text::optional_view(*mode),
            }),
    {
        match native_profile {
            Some(profile) => Some(profile.clone()),
            None => text::copy_option(mode),
        }
    }

    /// The name of the model or agent: the model of the built-in agent, else the agent.
    pub fn current_model_name(&self, has_native_connection: bool, active_model: Option<&ModelInfo>) -> (r:
        String)
        ensures
            r@ == (if !has_native_connection {
                self.agent_id@
            } else {
                match active_model {
                    Some(model) => model.name@,
                    None => "The model"@,
                }
            }),
    {
        if !has_native_connection {
            return self.agent_id.clone();
        }
        match active_model {
            Some(model) => model.name.clone(),
            None => "The model".to_owned(),
        }
    }

    /// The title of the document that shows the thread as Markdown.
    pub fn open_thread_as_markdown(&self, thread: &AcpThread, default_title: &str) -> (r: String)
        ensures
            r@ == text::text_or(thread.title, default_title@),
    {
        match &thread.title {
            Some(title) => title.clone(),
            None => default_title.to_owned(),
        }
    }

    /// Whether the thread was imported; only native threads can be.
    pub fn is_imported_thread(&self, native_is_imported: Option<bool>) -> (r: bool)
        ensures
            r == (native_is_imported == Some(true)),
    {
        match native_is_imported {
            Some(is_imported) => is_imported,
            None => false,
        }
    }

    /// The session whose latest version is fetched. Only an imported thread has one, and only
    /// where there is a list of sessions to keep it in.
    pub fn sync_thread(
        &self,
        native_is_imported: Option<bool>,
        has_session_list: bool,
        thread: &AcpThread,
    ) -> (r: Option<String>)
        ensures
            text::optional_view(r) == (if native_is_imported == Some(true) && has_session_list {
                Some(thread.session_id@)
            } else {
                None
            }),
    {
        if !self.is_imported_thread(native_is_imported) || !has_session_list {
            return None;
        }
        Some(thread.session_id.clone())
    }
}

/// A view of a subagent has no message editor, and a root view no bar that leads back.
pub proof fn a_view_leads_back_or_takes_messages(
    layout: ThreadLayout,
    before: ThreadView,
    after: ThreadView,
    thread: AcpThread,
    context: ViewContext,
)
    requires
        layout_shows(layout, before, after, thread, context),
    ensures
        !(layout.titlebar is Some && layout.editor is Some),
        layout.new_version is Some ==> !layout.shows_entries,
{
}

/// A view shows its callouts where they are due: the notice of a resumed session, the warning
/// about an external prompt, the one about the agent on this system, and the error. The new
/// version is offered before the first message only.
pub proof fn callouts_show_where_they_are_due(
    layout: ThreadLayout,
    before: ThreadView,
    after: ThreadView,
    thread: AcpThread,
    context: ViewContext,
)
    requires
        layout_shows(layout, before, after, thread, context),
    ensures
        layout.resume_notice is Some <==> before.resumed_without_history,
        layout.external_source_warning is Some <==> before.show_external_source_prompt_warning,
        layout.codex_warning is Some <==> before.show_codex_windows_warning,
        layout.error is Some <==> before.thread_error is Some,
        layout.new_version is Some <==> before.new_server_version_available is Some
            && context.editor.item_count == 0,
        layout.retry is Some ==> before.thread_retry_status is Some,
        layout.token_limit is Some <==> !before.token_limit_callout_dismissed
            && *context.editor.native is Some && thread.token_usage is Some && (
        thread.token_usage_ratio == crate::model::TokenUsageRatio::Warning
            || thread.token_usage_ratio == crate::model::TokenUsageRatio::Exceeded),
        layout.multi_root is Some ==> !before.multi_root_callout_dismissed
            && !context.has_native_connection && !context.supports_additional_directories,
        layout.skill_errors@.len() == before.skill_loading_errors@.len(),
        layout.shows_entries <==> context.editor.item_count != 0,
        layout.editor is Some <==> before.parent_session_id is None,
        layout.titlebar is Some <==> before.parent_session_id is Some && thread.parent_session_id
            is Some,
        layout.activity is Some <==> activity::has_activity(after, thread, context.activity),
{
}

/// Actions on selectors wait until the agent is idle, but for the one that opens the profiles.
pub proof fn selectors_wait_for_an_idle_agent(action: SelectorAction, status: ThreadStatus)
    ensures
        status == ThreadStatus::Idle ==> selector_action_applies(action, status),
        status == ThreadStatus::Generating ==> (selector_action_applies(action, status)
            <==> action == SelectorAction::ToggleProfileSelector),
{
}

/// The options of the agent are asked for the group that the action is about: its menu is
/// toggled, or its values are cycled, where only the favourite models are.
pub proof fn options_are_asked_for_their_group(action: SelectorAction)
    ensures
        match option_request(action) {
            OptionRequest::Toggle(category) => {
                &&& category == OptionCategory::ThoughtLevel <==> action
                    == SelectorAction::ToggleThinkingEffortMenu
                &&& category == OptionCategory::Mode <==> action
                    == SelectorAction::ToggleProfileSelector
                &&& category == OptionCategory::Model <==> action
                    == SelectorAction::ToggleModelSelector
            },
            OptionRequest::Cycle { category, favorites_only } => {
                &&& category == OptionCategory::ThoughtLevel <==> action
                    == SelectorAction::CycleThinkingEffort
                &&& category == OptionCategory::Mode <==> action
                    == SelectorAction::CycleModeSelector
                &&& category == OptionCategory::Model <==> action
                    == SelectorAction::CycleFavoriteModels
                &&& favorites_only <==> category == OptionCategory::Model
            },
        },
{
}

/// An action goes to the selector that it is about. Profiles come before modes, and without a
/// selector nothing happens.
pub proof fn actions_go_to_their_selectors(action: SelectorAction, selectors: Selectors)
    ensures
        ({
            let target = selector_target(action, selectors);
            &&& target == SelectorTarget::CycleNativeEffort <==> action
                == SelectorAction::CycleThinkingEffort
            &&& target == SelectorTarget::ToggleEffortMenu <==> action
                == SelectorAction::ToggleThinkingEffortMenu
            &&& target == SelectorTarget::ToggleProfileMenu <==> action
                == SelectorAction::ToggleProfileSelector && selectors.has_profile_selector
            &&& target == SelectorTarget::ToggleModeMenu <==> action
                == SelectorAction::ToggleProfileSelector && !selectors.has_profile_selector
                && selectors.has_mode_selector
            &&& target == SelectorTarget::CycleProfile <==> action
                == SelectorAction::CycleModeSelector && selectors.has_profile_selector
            &&& target == SelectorTarget::CycleMode <==> action
                == SelectorAction::CycleModeSelector && !selectors.has_profile_selector
                && selectors.has_mode_selector
            &&& target == SelectorTarget::ToggleModelMenu <==> action
                == SelectorAction::ToggleModelSelector && selectors.has_model_selector
            &&& target == SelectorTarget::CycleFavoriteModels <==> action
                == SelectorAction::CycleFavoriteModels && selectors.has_model_selector
        }),
{
}

/// The parts of a view show the thread, the errors and the time that they are for.
pub proof fn the_parts_show_what_they_are_for(
    layout: ThreadLayout,
    before: ThreadView,
    after: ThreadView,
    thread: AcpThread,
    context: ViewContext,
)
    requires
        layout_shows(layout, before, after, thread, context),
    ensures
        layout.shows_entries <==> context.editor.item_count != 0,
        layout.titlebar matches Some(bar) ==> {
            &&& thread.status == ThreadStatus::Idle && (context.spawning_call matches Some(call)
                && (call.status is Rejected || call.status is Canceled || call.status is Failed))
                ==> bar.is_dashed
            &&& !(context.spawning_call matches Some(call) && (call.status is Rejected
                || call.status is Canceled || call.status is Failed)) ==> !bar.is_dashed
        },
        layout.activity matches Some(bar) ==> activity::activity_bar_shows(
            bar,
            after,
            thread,
            context.activity,
        ),
        layout.editor matches Some(editor) ==> editor_controls::message_editor_shows(
            editor,
            after,
            thread,
            context.editor,
        ),
        callouts::multi_root_shows(
            layout.multi_root,
            before,
            context.has_native_connection,
            context.supports_additional_directories,
            context.worktree_count,
            context.work_dirs,
        ),
        callouts::skill_errors_show(layout.skill_errors@, before.skill_loading_errors@),
        callouts::retry_shows(layout.retry, before, context.now),
        callouts::thread_error_shows(layout.error, before, thread.can_retry, context.name@),
        layout.new_version matches Some(callout) ==> before.new_server_version_available is Some
            && callouts::new_version_shows(callout, before.new_server_version_available->0@),
        thread.token_usage is Some ==> callouts::token_limit_shows(
            layout.token_limit,
            before,
            *context.editor.native is Some,
            Some(thread.token_usage_ratio),
        ),
        thread.token_usage is None ==> layout.token_limit is None,
        layout.resume_notice matches Some(callout) ==> callouts::is_resume_notice(callout),
        layout.codex_warning matches Some(callout) ==> callouts::is_codex_warning(callout),
        layout.external_source_warning matches Some(callout)
            ==> callouts::is_external_source_warning(callout),
{
}

} // verus!
