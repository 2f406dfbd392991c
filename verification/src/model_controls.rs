//! The controls for the model: its speed, whether it thinks, and with which effort.

use crate::keyed::{KeySet, Keyed};
use crate::model::{Color, IconName};
use crate::text;
use crate::thread_view::ThreadView;
use vstd::prelude::*;
use vstd::string::*;

verus! {

/// How fast a model answers.
#[derive(Clone, Copy, PartialEq, Eq, Structural, Debug)]
pub enum Speed {
    Standard,
    Fast,
}

/// An effort with which a model can think.
pub struct EffortLevel {
    pub name: String,
    pub value: String,
    pub is_default: bool,
}

/// What a provider says before fast mode is switched on.
pub struct FastModeConfirmation {
    pub title: String,
    pub message: String,
}

/// The model of a native thread.
pub struct NativeModel {
    pub provider_id: String,
    pub model_id: String,
    pub supports_fast_mode: bool,
    pub supports_thinking: bool,
    pub effort_levels: Vec<EffortLevel>,
    /// What the provider says before fast mode is switched on.
    pub fast_mode_confirmation: Option<FastModeConfirmation>,
}

/// What the controls depend on of a native thread.
pub struct NativeThread {
    pub model: Option<NativeModel>,
    pub speed: Option<Speed>,
    pub thinking_enabled: bool,
    pub thinking_effort: Option<String>,
}

/// The identifier of a warning.
#[derive(Debug)]
pub struct WarningId {
    pub value: String,
}

impl Keyed for WarningId {
    type Key = Seq<char>;

    open spec fn key(&self) -> Seq<char> {
        self.value@
    }

    fn same_key(&self, other: &Self) -> (r: bool) {
        self.value == other.value
    }
}

/// The warnings about fast mode that the user does not want to see again.
pub struct FastModeWarnings {
    pub dismissed: KeySet<WarningId>,
}

/// The identifier of the warning about fast mode for a model.
pub open spec fn warning_id(provider_id: Seq<char>, model_id: Seq<char>) -> Seq<char> {
    provider_id + ":"@ + model_id
}

/// The identifier of the warning about fast mode for a model.
pub fn fast_mode_warning_id(provider_id: &str, model_id: &str) -> (r: String)
    ensures
        r@ == warning_id(provider_id@, model_id@),
{
    text::concat3(provider_id, ":", model_id)
}

/// Whether the warning about fast mode for a model was dismissed.
pub fn fast_mode_warning_dismissed(
    provider_id: &str,
    model_id: &str,
    warnings: &FastModeWarnings,
) -> (r: bool)
    ensures
        r == warnings.dismissed@.contains(warning_id(provider_id@, model_id@)),
{
    warnings.dismissed.contains(&WarningId { value: fast_mode_warning_id(provider_id, model_id) })
}

/// Remembers that the warning about fast mode for a model was dismissed.
pub fn set_fast_mode_warning_dismissed(
    provider_id: &str,
    model_id: &str,
    warnings: &mut FastModeWarnings,
)
    ensures
        final(warnings).dismissed@ == old(warnings).dismissed@.insert(
            warning_id(provider_id@, model_id@),
        ),
{
    warnings.dismissed.insert(WarningId { value: fast_mode_warning_id(provider_id, model_id) });
}

/// Forgets which warnings about fast mode were dismissed.
pub fn reset_fast_mode_warnings(warnings: &mut FastModeWarnings)
    ensures
        final(warnings).dismissed@ == Set::<Seq<char>>::empty(),
{
    warnings.dismissed = KeySet::new();
}

/// A change of the speed, and the model whose settings it is kept in.
pub struct SpeedChange {
    pub speed: Speed,
    pub model: Option<(String, String)>,
}

/// What toggling fast mode leads to.
pub enum FastModeAction {
    Nothing,
    /// The user is asked to confirm.
    Confirm,
    Apply(SpeedChange),
}

/// Whether the model of a native thread can answer faster.
pub open spec fn has_fast_mode(native: Option<NativeThread>) -> bool {
    native matches Some(thread) && thread.model matches Some(model) && model.supports_fast_mode
}

/// Whether the user is asked to confirm before fast mode is switched on.
pub open spec fn needs_confirmation(
    native: Option<NativeThread>,
    dismissed: Set<Seq<char>>,
) -> bool {
    native matches Some(thread) && thread.model matches Some(model)
        && model.fast_mode_confirmation is Some && !dismissed.contains(
        warning_id(model.provider_id@, model.model_id@),
    )
}

/// The provider and the name of the model of a native thread.
pub open spec fn model_key(native: NativeThread) -> Option<(Seq<char>, Seq<char>)> {
    match native.model {
        Some(model) => Some((model.provider_id@, model.model_id@)),
        None => None,
    }
}

/// The views of two texts.
pub open spec fn pair_view(pair: Option<(String, String)>) -> Option<(Seq<char>, Seq<char>)> {
    match pair {
        Some((a, b)) => Some((a@, b@)),
        None => None,
    }
}

fn favorite_key(native: &NativeThread) -> (r: Option<(String, String)>)
    ensures
        pair_view(r) == model_key(*native),
{
    match &native.model {
        Some(model) => Some((model.provider_id.clone(), model.model_id.clone())),
        None => None,
    }
}

/// The control for fast mode.
pub struct FastModeControl {
    pub tooltip: &'static str,
    pub color: Color,
    pub icon: IconName,
    /// The speed that a click sets, where no confirmation is needed.
    pub new_speed: Speed,
    /// What the user confirms first: the title and the message.
    pub confirmation: Option<(String, String)>,
}

/// What the control for fast mode shows.
pub open spec fn fast_mode_shows(
    control: FastModeControl,
    native: NativeThread,
    dismissed: Set<Seq<char>>,
) -> bool {
    let is_fast = native.speed == Some(Speed::Fast);
    &&& if is_fast {
        &&& control.tooltip@ == "Disable Fast Mode"@
        &&& control.color == Color::Accent
        &&& control.icon == IconName::FastForward
        &&& control.new_speed == Speed::Standard
        &&& control.confirmation is None
    } else {
        &&& control.tooltip@ == "Enable Fast Mode"@
        &&& control.color == Color::DisabledIcon
        &&& control.icon == IconName::FastForwardOff
        &&& control.new_speed == Speed::Fast
        &&& pair_view(control.confirmation) == (if needs_confirmation(Some(native), dismissed) {
            match native.model {
                Some(model) => match model.fast_mode_confirmation {
                    Some(confirmation) => Some((confirmation.title@, confirmation.message@)),
                    None => None,
                },
                None => None,
            }
        } else {
            None
        })
    }
}

/// What stands in the place of the control for fast mode. A model without fast mode has none.
pub open spec fn fast_mode_control_shows(
    control: Option<FastModeControl>,
    native: Option<NativeThread>,
    dismissed: Set<Seq<char>>,
) -> bool {
    &&& control is Some <==> has_fast_mode(native)
    &&& match (control, native) {
        (Some(control), Some(thread)) => fast_mode_shows(control, thread, dismissed),
        _ => true,
    }
}

/// The first level that is the default.
pub open spec fn default_level(levels: Seq<EffortLevel>) -> Option<int>
    decreases levels.len(),
{
    if levels.len() == 0 {
        None
    } else {
        match default_level(levels.drop_last()) {
            Some(i) => Some(i),
            None => if levels.last().is_default {
                Some(levels.len() - 1)
            } else {
                None
            },
        }
    }
}

/// The first level with this value.
pub open spec fn level_with(levels: Seq<EffortLevel>, value: Seq<char>) -> Option<int>
    decreases levels.len(),
{
    if levels.len() == 0 {
        None
    } else {
        match level_with(levels.drop_last(), value) {
            Some(i) => Some(i),
            None => if levels.last().value@ == value {
                Some(levels.len() - 1)
            } else {
                None
            },
        }
    }
}

/// The first level with the value that is selected.
pub open spec fn selected_level(levels: Seq<EffortLevel>, selected: Option<String>) -> Option<int> {
    match selected {
        Some(value) => level_with(levels, value@),
        None => None,
    }
}

/// A level in the menu.
pub struct EffortEntry {
    pub name: String,
    pub value: String,
    pub is_selected: bool,
}

/// The menu of the levels.
pub struct EffortSelector {
    pub label: String,
    pub label_color: Color,
    pub icon: IconName,
    pub shows_cycle_row: bool,
    pub entries: Vec<EffortEntry>,
}

/// What the menu of the levels shows.
pub open spec fn effort_selector_shows(
    selector: EffortSelector,
    levels: Seq<EffortLevel>,
    selected: Option<String>,
    is_deployed: bool,
) -> bool {
    let chosen = selected_level(levels, selected);
    &&& selector.label@ == (match chosen {
        Some(i) => levels[i].name@,
        None => match default_level(levels) {
            Some(i) => levels[i].name@,
            None => "Select Effort"@,
        },
    })
    &&& (selector.label_color, selector.icon) == (if is_deployed {
        (Color::Accent, IconName::ChevronUp)
    } else {
        (Color::Muted, IconName::ChevronDown)
    })
    &&& selector.shows_cycle_row == (levels.len() > 1)
    &&& selector.entries@.len() == levels.len()
    &&& forall|i: int|
        0 <= i < levels.len() ==> {
            &&& (#[trigger] selector.entries@[i]).name@ == levels[i].name@
            &&& selector.entries@[i].value@ == levels[i].value@
            &&& selector.entries@[i].is_selected == (chosen matches Some(c) && levels[c].value@
                == levels[i].value@)
        }
}

proof fn lemma_level_with(levels: Seq<EffortLevel>, value: Seq<char>)
    ensures
        match level_with(levels, value) {
            Some(i) => 0 <= i < levels.len() && levels[i].value@ == value && forall|j: int|
                0 <= j < i ==> (#[trigger] levels[j]).value@ != value,
            None => forall|j: int| 0 <= j < levels.len() ==> (#[trigger] levels[j]).value@ != value,
        },
    decreases levels.len(),
{
    if levels.len() > 0 {
        let before = levels.drop_last();
        lemma_level_with(before, value);
        match level_with(before, value) {
            Some(i) => {
                assert(before[i] == levels[i]);
                assert forall|j: int| 0 <= j < i implies (#[trigger] levels[j]).value@ != value by {
                    assert(before[j] == levels[j]);
                }
            },
            None => {
                assert forall|j: int| 0 <= j < before.len() implies (#[trigger] levels[j]).value@
                    != value by {
                    assert(before[j] == levels[j]);
                }
            },
        }
    }
}

fn find_level(levels: &Vec<EffortLevel>, value: &str) -> (r: Option<usize>)
    ensures
        match (r, level_with(levels@, value@)) {
            (Some(i), Some(j)) => i == j && i < levels@.len(),
            (None, None) => true,
            _ => false,
        },
{
    proof {
        lemma_level_with(levels@, value@);
    }
    let mut i: usize = 0;
    while i < levels.len()
        invariant
            i <= levels@.len(),
            forall|j: int| 0 <= j < i ==> (#[trigger] levels@[j]).value@ != value@,
            match level_with(levels@, value@) {
                Some(k) => 0 <= k < levels@.len() && levels@[k].value@ == value@ && forall|j: int|
                    0 <= j < k ==> (#[trigger] levels@[j]).value@ != value@,
                None => forall|j: int|
                    0 <= j < levels@.len() ==> (#[trigger] levels@[j]).value@ != value@,
            },
        decreases levels@.len() - i,
    {
        if text::same_text(levels[i].value.as_str(), value) {
            assert(levels@[i as int].value@ == value@);
            return Some(i);
        }
        i = i + 1;
    }
    None
}

fn find_default(levels: &Vec<EffortLevel>) -> (r: Option<usize>)
    ensures
        match (r, default_level(levels@)) {
            (Some(i), Some(j)) => i == j && i < levels@.len(),
            (None, None) => true,
            _ => false,
        },
{
    let mut found: Option<usize> = None;
    let mut i: usize = 0;
    while i < levels.len()
        invariant
            i <= levels@.len(),
            match (found, default_level(levels@.take(i as int))) {
                (Some(a), Some(b)) => a == b && a < i,
                (None, None) => true,
                _ => false,
            },
        decreases levels@.len() - i,
    {
        assert(levels@.take(i + 1).drop_last() == levels@.take(i as int));
        if found.is_none() && levels[i].is_default {
            found = Some(i);
        }
        i = i + 1;
    }
    assert(levels@.take(i as int) == levels@);
    found
}

/// The menu of the levels. `is_deployed` says whether it is open.
pub fn render_effort_selector(
    levels: &Vec<EffortLevel>,
    selected: &Option<String>,
    is_deployed: bool,
) -> (r: EffortSelector)
    ensures
        effort_selector_shows(r, levels@, *selected, is_deployed),
{
    let chosen: Option<usize> = match selected {
        Some(value) => find_level(levels, value.as_str()),
        None => None,
    };
    let label = match chosen {
        Some(i) => levels[i].name.clone(),
        None => match find_default(levels) {
            Some(i) => levels[i].name.clone(),
            None => "Select Effort".to_owned(),
        },
    };
    let (label_color, icon) = if is_deployed {
        (Color::Accent, IconName::ChevronUp)
    } else {
        (Color::Muted, IconName::ChevronDown)
    };
    let mut entries: Vec<EffortEntry> = Vec::new();
    let mut i: usize = 0;
    while i < levels.len()
        invariant
            i <= levels@.len(),
            entries@.len() == i,
            match (chosen, selected_level(levels@, *selected)) {
                (Some(a), Some(b)) => a == b && a < levels@.len(),
                (None, None) => true,
                _ => false,
            },
            forall|j: int|
                0 <= j < i ==> {
                    &&& (#[trigger] entries@[j]).name@ == levels@[j].name@
                    &&& entries@[j].value@ == levels@[j].value@
                    &&& entries@[j].is_selected == (selected_level(levels@, *selected) matches Some(
                        c,
                    ) && levels@[c].value@ == levels@[j].value@)
                },
        decreases levels@.len() - i,
    {
        let is_selected = match chosen {
            Some(c) => text::same_text(levels[c].value.as_str(), levels[i].value.as_str()),
            None => false,
        };
        entries.push(
            EffortEntry {
                name: levels[i].name.clone(),
                value: levels[i].value.clone(),
                is_selected,
            },
        );
        i = i + 1;
    }
    EffortSelector { label, label_color, icon, shows_cycle_row: levels.len() > 1, entries }
}

/// The control for thinking.
pub struct ThinkingControl {
    pub tooltip: &'static str,
    pub icon: IconName,
    pub color: Color,
    pub effort: Option<EffortSelector>,
}

/// What the control for thinking shows. A model that cannot think has none.
pub open spec fn thinking_control_shows(
    control: Option<ThinkingControl>,
    native: Option<NativeThread>,
    is_deployed: bool,
) -> bool {
    match (control, native) {
        (None, Some(thread)) => match thread.model {
            Some(model) => !model.supports_thinking,
            None => true,
        },
        (None, None) => true,
        (Some(_), None) => false,
        (Some(control), Some(thread)) => match thread.model {
            None => false,
            Some(model) => {
                &&& model.supports_thinking
                &&& if thread.thinking_enabled {
                    control.tooltip@ == "Disable Thinking Mode"@ && control.icon
                        == IconName::ThinkingMode && control.color == Color::Muted
                } else {
                    control.tooltip@ == "Enable Thinking Mode"@ && control.icon
                        == IconName::ThinkingModeOff && control.color == Color::DisabledIcon
                }
                &&& control.effort is Some <==> thread.thinking_enabled
                    && model.effort_levels@.len() > 0
                &&& control.effort matches Some(selector) ==> effort_selector_shows(
                    selector,
                    model.effort_levels@,
                    thread.thinking_effort,
                    is_deployed,
                )
            },
        },
    }
}

/// A change of the thinking, and the model whose settings it is kept in.
pub struct ThinkingChange {
    pub enable_thinking: bool,
    pub model: Option<(String, String)>,
}

/// A change of the effort, and the model whose settings it is kept in.
pub struct EffortChange {
    pub effort: String,
    pub model: Option<(String, String)>,
}

/// The place of the effort that comes next: the one behind the current one, the first one
/// behind the last, and the first one where the current one is unknown.
pub open spec fn next_level(levels: Seq<EffortLevel>, current: Option<String>) -> int {
    match selected_level(levels, current) {
        Some(i) => (i + 1) % levels.len() as int,
        None => 0,
    }
}

/// Whether the effort can be cycled.
pub open spec fn can_cycle_effort(native: Option<NativeThread>) -> bool {
    native matches Some(thread) && thread.model matches Some(model) && model.supports_thinking
        && thread.thinking_enabled && model.effort_levels@.len() > 0
}

impl ThreadView {
    /// Whether the model of a native thread can answer faster.
    pub fn fast_mode_available(&self, native: &Option<NativeThread>) -> (r: bool)
        ensures
            r == has_fast_mode(*native),
    {
        match native {
            Some(thread) => match &thread.model {
                Some(model) => model.supports_fast_mode,
                None => false,
            },
            None => false,
        }
    }

    /// What the user confirms before fast mode is switched on.
    pub fn pending_fast_mode_confirmation(
        &self,
        native: &NativeThread,
        warnings: &FastModeWarnings,
    ) -> (r: Option<(String, String)>)
        ensures
            r is Some <==> needs_confirmation(Some(*native), warnings.dismissed@),
            match (r, native.model) {
                (Some((title, message)), Some(model)) => model.fast_mode_confirmation matches Some(
                    confirmation,
                ) && title@ == confirmation.title@ && message@ == confirmation.message@,
                _ => true,
            },
    {
        match &native.model {
            Some(model) => match &model.fast_mode_confirmation {
                Some(confirmation) => {
                    if fast_mode_warning_dismissed(
                        model.provider_id.as_str(),
                        model.model_id.as_str(),
                        warnings,
                    ) {
                        None
                    } else {
                        Some((confirmation.title.clone(), confirmation.message.clone()))
                    }
                },
                None => None,
            },
            None => None,
        }
    }

    /// The control for fast mode, where the model has it.
    pub fn render_fast_mode_control(
        &self,
        native: &Option<NativeThread>,
        warnings: &FastModeWarnings,
    ) -> (r: Option<FastModeControl>)
        ensures
            fast_mode_control_shows(r, *native, warnings.dismissed@),
    {
        if !self.fast_mode_available(native) {
            return None;
        }
        let thread = match native {
            Some(thread) => thread,
            None => {
                return None;
            },
        };
        let is_fast = match thread.speed {
            Some(speed) => speed == Speed::Fast,
            None => false,
        };
        if is_fast {
            Some(
                FastModeControl {
                    tooltip: "Disable Fast Mode",
                    color: Color::Accent,
                    icon: IconName::FastForward,
                    new_speed: Speed::Standard,
                    confirmation: None,
                },
            )
        } else {
            Some(
                FastModeControl {
                    tooltip: "Enable Fast Mode",
                    color: Color::DisabledIcon,
                    icon: IconName::FastForwardOff,
                    new_speed: Speed::Fast,
                    confirmation: self.pending_fast_mode_confirmation(thread, warnings),
                },
            )
        }
    }

    /// Switches fast mode on or off. Where the user has to confirm, they are asked first.
    pub fn toggle_fast_mode(&self, native: &Option<NativeThread>, warnings: &FastModeWarnings) -> (r:
        FastModeAction)
        ensures
            match (r, *native) {
                (FastModeAction::Nothing, _) => !has_fast_mode(*native),
                (FastModeAction::Confirm, Some(thread)) => has_fast_mode(*native) && thread.speed
                    != Some(Speed::Fast) && needs_confirmation(*native, warnings.dismissed@),
                (FastModeAction::Apply(change), Some(thread)) => {
                    &&& has_fast_mode(*native)
                    &&& change.speed == (if thread.speed == Some(Speed::Fast) {
                        Speed::Standard
                    } else {
                        Speed::Fast
                    })
                    &&& pair_view(change.model) == model_key(thread)
                    &&& change.speed == Speed::Fast ==> !needs_confirmation(
                        *native,
                        warnings.dismissed@,
                    )
                },
                _ => false,
            },
    {
        if !self.fast_mode_available(native) {
            return FastModeAction::Nothing;
        }
        let thread = match native {
            Some(thread) => thread,
            None => {
                return FastModeAction::Nothing;
            },
        };
        let is_fast = match thread.speed {
            Some(speed) => speed == Speed::Fast,
            None => false,
        };
        if is_fast {
            return FastModeAction::Apply(self.apply_fast_mode_speed(thread, Speed::Standard));
        }
        if self.pending_fast_mode_confirmation(thread, warnings).is_some() {
            return FastModeAction::Confirm;
        }
        FastModeAction::Apply(self.apply_fast_mode_speed(thread, Speed::Fast))
    }

    /// The change of the speed of a native thread.
    pub fn apply_fast_mode_speed(&self, native: &NativeThread, new_speed: Speed) -> (r: SpeedChange)
        ensures
            r.speed == new_speed,
            pair_view(r.model) == model_key(*native),
    {
        SpeedChange { speed: new_speed, model: favorite_key(native) }
    }

    /// The control for thinking, where the model can think. `is_deployed` says whether the menu
    /// of the levels is open.
    pub fn render_thinking_control(&self, native: &Option<NativeThread>, is_deployed: bool) -> (r:
        Option<ThinkingControl>)
        ensures
            thinking_control_shows(r, *native, is_deployed),
    {
        let thread = match native {
            Some(thread) => thread,
            None => {
                return None;
            },
        };
        let model = match &thread.model {
            Some(model) => model,
            None => {
                return None;
            },
        };
        if !model.supports_thinking {
            return None;
        }
        let (tooltip, icon, color): (&'static str, IconName, Color) = if thread.thinking_enabled {
            ("Disable Thinking Mode", IconName::ThinkingMode, Color::Muted)
        } else {
            ("Enable Thinking Mode", IconName::ThinkingModeOff, Color::DisabledIcon)
        };
        let effort = if thread.thinking_enabled && model.effort_levels.len() > 0 {
            Some(
                render_effort_selector(&model.effort_levels, &thread.thinking_effort, is_deployed),
            )
        } else {
            None
        };
        Some(ThinkingControl { tooltip, icon, color, effort })
    }

    /// Switches thinking on or off, by a click on its control.
    pub fn toggle_thinking(&self, native: &Option<NativeThread>) -> (r: Option<ThinkingChange>)
        ensures
            r is Some <==> native is Some,
            match (r, *native) {
                (Some(change), Some(thread)) => change.enable_thinking == !thread.thinking_enabled
                    && pair_view(change.model) == model_key(thread),
                _ => true,
            },
    {
        match native {
            Some(thread) => Some(
                ThinkingChange {
                    enable_thinking: !thread.thinking_enabled,
                    model: favorite_key(thread),
                },
            ),
            None => None,
        }
    }

    /// Sets the effort to the next level. Nothing happens where the model does not think, or
    /// has no levels.
    pub fn cycle_native_agent_thinking_effort(&self, native: &Option<NativeThread>) -> (r: Option<
        EffortChange,
    >)
        ensures
            r is Some <==> can_cycle_effort(*native),
            match (r, *native) {
                (Some(change), Some(thread)) => thread.model matches Some(model) && {
                    &&& change.effort@ == model.effort_levels@[next_level(
                        model.effort_levels@,
                        thread.thinking_effort,
                    )].value@
                    &&& pair_view(change.model) == model_key(thread)
                },
                _ => true,
            },
    {
        let thread = match native {
            Some(thread) => thread,
            None => {
                return None;
            },
        };
        let model = match &thread.model {
            Some(model) => model,
            None => {
                return None;
            },
        };
        if !model.supports_thinking || !thread.thinking_enabled {
            return None;
        }
        let levels = &model.effort_levels;
        if levels.len() == 0 {
            return None;
        }
        let current: Option<usize> = match &thread.thinking_effort {
            Some(value) => find_level(levels, value.as_str()),
            None => None,
        };
        let next: usize = match current {
            Some(index) => if index + 1 < levels.len() {
                index + 1
            } else {
                0
            },
            None => 0,
        };
        assert(next == next_level(levels@, thread.thinking_effort)) by {
            if let Some(index) = current {
                assert(index + 1 <= levels@.len());
                if index + 1 == levels@.len() {
                    assert((index + 1) % levels@.len() as int == 0) by (nonlinear_arith)
                        requires
                            index + 1 == levels@.len(),
                            levels@.len() > 0,
                    ;
                } else {
                    assert((index + 1) % levels@.len() as int == index + 1) by (nonlinear_arith)
                        requires
                            0 <= index + 1 < levels@.len(),
                    ;
                }
            }
        }
        Some(EffortChange { effort: levels[next].value.clone(), model: favorite_key(thread) })
    }
}

/// Cycling goes through the levels in order and from the last one back to the first.
pub proof fn cycling_goes_round(levels: Seq<EffortLevel>, i: int)
    requires
        0 <= i < levels.len(),
        forall|a: int, b: int|
            0 <= a < b < levels.len() ==> (#[trigger] levels[a]).value@ != (
            #[trigger] levels[b]).value@,
    ensures
        next_level(levels, Some(levels[i].value)) == (if i + 1 < levels.len() {
            i + 1
        } else {
            0
        }),
{
    lemma_level_with(levels, levels[i].value@);
    let n = levels.len() as int;
    if i + 1 < n {
        assert((i + 1) % n == i + 1) by (nonlinear_arith)
            requires
                0 <= i + 1 < n,
        ;
    } else {
        assert((i + 1) % n == 0) by (nonlinear_arith)
            requires
                i + 1 == n,
                n > 0,
        ;
    }
}

/// A dismissed warning is not shown again, until the warnings are reset.
pub proof fn a_dismissed_warning_stays_hidden(
    native: NativeThread,
    dismissed: Set<Seq<char>>,
    provider_id: Seq<char>,
    model_id: Seq<char>,
)
    requires
        model_key(native) == Some((provider_id, model_id)),
    ensures
        !needs_confirmation(Some(native), dismissed.insert(warning_id(provider_id, model_id))),
        needs_confirmation(Some(native), Set::empty()) <==> (native.model matches Some(model)
            && model.fast_mode_confirmation is Some),
{
}

/// Warnings are told apart by provider and model.
pub proof fn warnings_are_named_by_provider_and_model(provider: Seq<char>, model: Seq<char>)
    ensures
        warning_id(provider, model) == provider + seq![':'] + model,
{
    reveal_strlit(":");
    assert(":"@ =~= seq![':']);
}

/// Fast mode takes a native thread whose model has it. The user confirms it where the provider
/// asks for that and the warning for the model was not dismissed.
pub proof fn fast_mode_takes_a_model_that_has_it(
    native: NativeThread,
    model: NativeModel,
    dismissed: Set<Seq<char>>,
)
    requires
        native.model == Some(model),
    ensures
        !has_fast_mode(None),
        has_fast_mode(Some(native)) <==> model.supports_fast_mode,
        !needs_confirmation(None, dismissed),
        needs_confirmation(Some(native), dismissed) <==> model.fast_mode_confirmation is Some
            && !dismissed.contains(model.provider_id@ + seq![':'] + model.model_id@),
        model_key(native) == Some((model.provider_id@, model.model_id@)),
{
    warnings_are_named_by_provider_and_model(model.provider_id@, model.model_id@);
}

/// A native thread without a model has no fast mode, asks for no confirmation and has no name.
pub proof fn without_a_model_nothing_is_offered(native: NativeThread, dismissed: Set<Seq<char>>)
    requires
        native.model is None,
    ensures
        !has_fast_mode(Some(native)),
        !needs_confirmation(Some(native), dismissed),
        model_key(native) is None,
{
}

/// The control for fast mode offers the other speed. Slowing down never asks for a confirmation;
/// speeding up does where it is needed, in the words of the provider.
pub proof fn the_control_offers_the_other_speed(
    control: Option<FastModeControl>,
    native: Option<NativeThread>,
    dismissed: Set<Seq<char>>,
)
    requires
        fast_mode_control_shows(control, native, dismissed),
    ensures
        control is Some <==> has_fast_mode(native),
        match (control, native) {
            (Some(shown), Some(thread)) => {
                &&& shown.new_speed == Speed::Standard <==> thread.speed == Some(Speed::Fast)
                &&& shown.new_speed == Speed::Fast <==> thread.speed != Some(Speed::Fast)
                &&& shown.new_speed == Speed::Standard ==> shown.confirmation is None
                    && shown.tooltip@ == "Disable Fast Mode"@ && shown.icon
                    == IconName::FastForward && shown.color == Color::Accent
                &&& shown.new_speed == Speed::Fast ==> (shown.confirmation is Some
                    <==> needs_confirmation(native, dismissed)) && shown.tooltip@
                    == "Enable Fast Mode"@ && shown.icon == IconName::FastForwardOff
                &&& shown.confirmation matches Some((title, message)) ==> title@
                    == thread.model->0.fast_mode_confirmation->0.title@ && message@
                    == thread.model->0.fast_mode_confirmation->0.message@
            },
            _ => true,
        },
{
}

/// The default level is a level marked as the default with none before it.
pub proof fn the_default_level_is_marked(levels: Seq<EffortLevel>)
    ensures
        match default_level(levels) {
            Some(i) => 0 <= i < levels.len() && levels[i].is_default && forall|j: int|
                0 <= j < i ==> !(#[trigger] levels[j]).is_default,
            None => forall|j: int| 0 <= j < levels.len() ==> !(#[trigger] levels[j]).is_default,
        },
    decreases levels.len(),
{
    if levels.len() > 0 {
        let before = levels.drop_last();
        the_default_level_is_marked(before);
        match default_level(before) {
            Some(i) => {
                assert(before[i] == levels[i]);
                assert forall|j: int| 0 <= j < i implies !(#[trigger] levels[j]).is_default by {
                    assert(before[j] == levels[j]);
                }
            },
            None => {
                assert forall|j: int| 0 <= j < before.len() implies !(
                #[trigger] levels[j]).is_default by {
                    assert(before[j] == levels[j]);
                }
            },
        }
    }
}

/// The selected level is a level with the value that was selected, with none before it.
pub proof fn the_selected_level_has_the_value(levels: Seq<EffortLevel>, value: String)
    ensures
        match selected_level(levels, Some(value)) {
            Some(i) => 0 <= i < levels.len() && levels[i].value@ == value@ && forall|j: int|
                0 <= j < i ==> (#[trigger] levels[j]).value@ != value@,
            None => forall|j: int|
                0 <= j < levels.len() ==> (#[trigger] levels[j]).value@ != value@,
        },
        selected_level(levels, None) is None,
{
    lemma_level_with(levels, value@);
}

/// The menu of the levels lists them in order under their names and marks the one whose value is
/// selected. Its label is the name of the selected level, else of the default, else asks for one.
pub proof fn the_menu_lists_the_levels(
    selector: EffortSelector,
    levels: Seq<EffortLevel>,
    value: String,
    is_deployed: bool,
    i: int,
)
    requires
        effort_selector_shows(selector, levels, Some(value), is_deployed),
        0 <= i < levels.len(),
    ensures
        selector.entries@.len() == levels.len(),
        selector.entries@[i].name@ == levels[i].name@,
        selector.entries@[i].value@ == levels[i].value@,
        selector.entries@[i].is_selected <==> levels[i].value@ == value@,
        selector.shows_cycle_row <==> levels.len() >= 2,
        selector.icon == IconName::ChevronUp <==> is_deployed,
        selector.icon == IconName::ChevronDown <==> !is_deployed,
        selector.label_color == Color::Accent <==> is_deployed,
        levels[i].value@ == value@ && (forall|j: int|
            0 <= j < i ==> (#[trigger] levels[j]).value@ != value@) ==> selector.label@
            == levels[i].name@,
        (forall|j: int| 0 <= j < levels.len() ==> (#[trigger] levels[j]).value@ != value@)
            && levels[i].is_default && (forall|j: int|
            0 <= j < i ==> !(#[trigger] levels[j]).is_default) ==> selector.label@
            == levels[i].name@,
        (forall|j: int|
            0 <= j < levels.len() ==> (#[trigger] levels[j]).value@ != value@
                && !levels[j].is_default) ==> selector.label@ == "Select Effort"@,
{
    the_default_level_is_marked(levels);
    the_selected_level_has_the_value(levels, value);
    assert(selector.entries@[i].name@ == levels[i].name@);
    if let Some(c) = selected_level(levels, Some(value)) {
        assert(levels[c].value@ == value@);
    }
    if let Some(d) = default_level(levels) {
        assert(levels[d].is_default);
    }
}

/// The control for thinking is there where the model can think, offers the opposite, and lets the
/// effort be chosen while the model thinks and has levels.
pub proof fn the_control_offers_to_think_or_not(
    control: Option<ThinkingControl>,
    native: Option<NativeThread>,
    is_deployed: bool,
)
    requires
        thinking_control_shows(control, native, is_deployed),
    ensures
        control is Some <==> native is Some && native->0.model is Some
            && native->0.model->0.supports_thinking,
        match (control, native) {
            (Some(shown), Some(thread)) => {
                &&& thread.thinking_enabled ==> shown.tooltip@ == "Disable Thinking Mode"@
                    && shown.icon == IconName::ThinkingMode && shown.color == Color::Muted
                &&& !thread.thinking_enabled ==> shown.tooltip@ == "Enable Thinking Mode"@
                    && shown.icon == IconName::ThinkingModeOff
                &&& shown.effort is Some <==> thread.thinking_enabled
                    && thread.model->0.effort_levels@.len() != 0
                &&& shown.effort matches Some(selector) ==> selector.entries@.len()
                    == thread.model->0.effort_levels@.len()
            },
            _ => true,
        },
{
}

/// The effort is cycled where a native thread thinks with a model that can and has levels.
pub proof fn cycling_takes_a_thinking_model(native: NativeThread)
    ensures
        !can_cycle_effort(None),
        native.model is None ==> !can_cycle_effort(Some(native)),
        native.model matches Some(model) ==> (can_cycle_effort(Some(native))
            <==> native.thinking_enabled && model.supports_thinking && model.effort_levels@.len()
            != 0),
{
}

/// Where the current effort is none of the levels, cycling starts with the first.
pub proof fn cycling_starts_with_the_first(levels: Seq<EffortLevel>, value: String)
    requires
        forall|j: int| 0 <= j < levels.len() ==> (#[trigger] levels[j]).value@ != value@,
    ensures
        next_level(levels, Some(value)) == 0,
        next_level(levels, None) == 0,
{
    the_selected_level_has_the_value(levels, value);
}

/// Thinking that is off is drawn as such.
pub proof fn thinking_that_is_off_looks_so(
    control: ThinkingControl,
    thread: NativeThread,
    is_deployed: bool,
)
    requires
        thinking_control_shows(Some(control), Some(thread), is_deployed),
    ensures
        control.color == Color::DisabledIcon <==> !thread.thinking_enabled,
        control.color == Color::Muted <==> thread.thinking_enabled,
        control.effort matches Some(selector) ==> effort_selector_shows(
            selector,
            thread.model->0.effort_levels@,
            thread.thinking_effort,
            is_deployed,
        ),
{
}

} // verus!
