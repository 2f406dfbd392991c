//! Permission requests: which answers are offered, how they are shown and what
//! the user has selected.

use crate::model::{
    AcpThread, Color, EntryContent, AgentThreadEntry, IconName, PermissionOption, PermissionOptionChoice,
    PermissionOptionKind, PermissionOptions, PermissionPattern, ToolCallId, ToolCallStatus,
};
use crate::keyed::{KeyMap, Keyed};
use crate::text;
use crate::thread_view::ThreadView;
use vstd::prelude::*;
use vstd::string::*;

verus! {

/// A bounded vector of the `heapless` crate: up to three numbers.
#[verifier::external_body]
pub struct SeenKinds {
    kinds: heapless::Vec<u8, 3, u8>,
}

/// The numbers in the vector in the order in which they were pushed.
pub uninterp spec fn pushed(seen: SeenKinds) -> Seq<u8>;

impl SeenKinds {
    /// `heapless::Vec::new` gives a vector that holds nothing.
    #[verifier::external_body]
    fn new() -> (r: Self)
        ensures
            pushed(r) == Seq::<u8>::empty(),
    {
        SeenKinds { kinds: heapless::Vec::new() }
    }

    /// `contains` of the slice that a `heapless::Vec` dereferences to: whether `item` is
    /// among the pushed numbers.
    #[verifier::external_body]
    fn contains(&self, item: u8) -> (r: bool)
        ensures
            r == pushed(*self).contains(item),
    {
        self.kinds.contains(&item)
    }

    /// `heapless::Vec::push` puts the item at the end where the vector holds fewer items
    /// than its capacity, and hands it back and changes nothing where the vector is full.
    #[verifier::external_body]
    fn push(&mut self, item: u8) -> (r: Result<(), u8>)
        ensures
            match r {
                Ok(_) => 3 > pushed(*old(self)).len() && pushed(*final(self)) == pushed(
                    *old(self),
                ).push(item),
                Err(back) => pushed(*old(self)).len() == 3 && back == item && pushed(*final(self))
                    == pushed(*old(self)),
            },
    {
        self.kinds.push(item)
    }
}

/// The key bindings that answer a permission request.
#[derive(Clone, Copy, PartialEq, Eq, Structural, Debug)]
pub enum PermissionAction {
    AllowOnce,
    AllowAlways,
    RejectOnce,
}

/// The key binding for an answer, where there is one.
pub open spec fn action_for(kind: PermissionOptionKind) -> Option<PermissionAction> {
    match kind {
        PermissionOptionKind::AllowOnce => Some(PermissionAction::AllowOnce),
        PermissionOptionKind::AllowAlways => Some(PermissionAction::AllowAlways),
        PermissionOptionKind::RejectOnce => Some(PermissionAction::RejectOnce),
        PermissionOptionKind::RejectAlways | PermissionOptionKind::Other => None,
    }
}

/// The icon of an answer.
pub open spec fn icon_for(kind: PermissionOptionKind) -> (IconName, Color) {
    match kind {
        PermissionOptionKind::AllowOnce => (IconName::Check, Color::Success),
        PermissionOptionKind::AllowAlways => (IconName::CheckDouble, Color::Success),
        PermissionOptionKind::RejectOnce => (IconName::Close, Color::Error),
        PermissionOptionKind::RejectAlways | PermissionOptionKind::Other => (
            IconName::Close,
            Color::Error,
        ),
    }
}

/// A button of a flat permission request.
pub struct PermissionButton {
    pub option_id: String,
    pub entry_ix: usize,
    pub name: String,
    pub icon: IconName,
    pub icon_color: Color,
    /// The action whose key binding the button shows.
    pub key_binding: Option<PermissionAction>,
    pub kind: PermissionOptionKind,
}

/// Whether an option before `i` is of the same kind.
pub open spec fn kind_seen_before(options: Seq<PermissionOption>, i: int) -> bool {
    exists|j: int| 0 <= j < i && (#[trigger] options[j]).kind == options[i].kind
}

/// The key binding that the button of option `i` shows: that of its kind, on the first
/// button of the kind, where this request is the one that key bindings answer.
pub open spec fn binding_of(
    options: Seq<PermissionOption>,
    i: int,
    is_first: bool,
) -> Option<PermissionAction> {
    if is_first && !kind_seen_before(options, i) {
        action_for(options[i].kind)
    } else {
        None
    }
}

spec fn code(kind: PermissionOptionKind) -> u8 {
    match kind {
        PermissionOptionKind::AllowOnce => 0,
        PermissionOptionKind::AllowAlways => 1,
        PermissionOptionKind::RejectOnce => 2,
        PermissionOptionKind::RejectAlways => 3,
        PermissionOptionKind::Other => 4,
    }
}

proof fn lemma_room_for_a_new_kind(seen: Seq<u8>, item: u8)
    requires
        seen.no_duplicates(),
        forall|j: int| 0 <= j < seen.len() ==> seen[j] < 3,
        item < 3,
        !seen.contains(item),
    ensures
        seen.len() < 3,
{
    if seen.len() >= 3 {
        let a = seen[0];
        let b = seen[1];
        let c = seen[2];
        assert(a != b && b != c && a != c);
        assert(seen.contains(a) && seen.contains(b) && seen.contains(c));
        assert(false);
    }
}

/// The buttons of a flat permission request, one for each answer in order.
pub fn render_permission_buttons_flat(
    is_first: bool,
    options: &Vec<PermissionOption>,
    entry_ix: usize,
) -> (r: Vec<PermissionButton>)
    ensures
        r@.len() == options@.len(),
        forall|i: int|
            0 <= i < r@.len() ==> {
                &&& (#[trigger] r@[i]).option_id == options@[i].option_id
                &&& r@[i].entry_ix == entry_ix
                &&& r@[i].name == options@[i].name
                &&& (r@[i].icon, r@[i].icon_color) == icon_for(options@[i].kind)
                &&& r@[i].key_binding == binding_of(options@, i, is_first)
                &&& r@[i].kind == options@[i].kind
            },
{
    let mut seen = SeenKinds::new();
    let mut buttons: Vec<PermissionButton> = Vec::new();
    let mut i: usize = 0;
    while i < options.len()
        invariant
            i <= options@.len(),
            buttons@.len() == i,
            pushed(seen).no_duplicates(),
            forall|j: int| 0 <= j < pushed(seen).len() ==> (#[trigger] pushed(seen)[j]) < 3,
            is_first ==> forall|k: PermissionOptionKind|
                #![trigger code(k)]
                action_for(k) is Some ==> (pushed(seen).contains(code(k))
                    <==> exists|j: int| 0 <= j < i && (#[trigger] options@[j]).kind == k),
            forall|j: int|
                0 <= j < i ==> {
                    &&& (#[trigger] buttons@[j]).option_id == options@[j].option_id
                    &&& buttons@[j].entry_ix == entry_ix
                    &&& buttons@[j].name == options@[j].name
                    &&& (buttons@[j].icon, buttons@[j].icon_color) == icon_for(options@[j].kind)
                    &&& buttons@[j].key_binding == binding_of(options@, j, is_first)
                    &&& buttons@[j].kind == options@[j].kind
                },
        decreases options@.len() - i,
    {
        let option = &options[i];
        let kind = option.kind;
        let (icon, icon_color, action, number) = match kind {
            PermissionOptionKind::AllowOnce => (
                IconName::Check,
                Color::Success,
                Some(PermissionAction::AllowOnce),
                0u8,
            ),
            PermissionOptionKind::AllowAlways => (
                IconName::CheckDouble,
                Color::Success,
                Some(PermissionAction::AllowAlways),
                1u8,
            ),
            PermissionOptionKind::RejectOnce => (
                IconName::Close,
                Color::Error,
                Some(PermissionAction::RejectOnce),
                2u8,
            ),
            PermissionOptionKind::RejectAlways => (IconName::Close, Color::Error, None, 3u8),
            PermissionOptionKind::Other => (IconName::Close, Color::Error, None, 4u8),
        };
        assert(number == code(kind));
        let ghost before = pushed(seen);
        let mut key_binding: Option<PermissionAction> = None;
        if action.is_some() && is_first && !seen.contains(number) {
            proof {
                lemma_room_for_a_new_kind(before, number);
            }
            let pushed_now = seen.push(number);
            assert(pushed_now is Ok);
            key_binding = action;
        }
        proof {
            assert(key_binding == binding_of(options@, i as int, is_first));
            let after = pushed(seen);
            if after != before {
                assert(after == before.push(number));
                assert(after.no_duplicates());
            }
            assert forall|k: PermissionOptionKind|
                #![trigger code(k)]
                is_first && action_for(k) is Some implies (after.contains(code(k))
                <==> exists|j: int| 0 <= j < i + 1 && (#[trigger] options@[j]).kind == k) by {
                if after != before {
                    assert(after[before.len() as int] == number);
                    if before.contains(code(k)) {
                        let p = choose|p: int| 0 <= p < before.len() && before[p] == code(k);
                        assert(after[p] == code(k));
                    }
                    if after.contains(code(k)) && k != kind {
                        let p = choose|p: int| 0 <= p < after.len() && after[p] == code(k);
                        assert(p < before.len());
                        assert(before[p] == code(k));
                    }
                }
                if k == kind {
                    assert(options@[i as int].kind == k);
                }
            }
        }
        buttons.push(
            PermissionButton {
                option_id: option.option_id.clone(),
                entry_ix,
                name: option.name.clone(),
                icon,
                icon_color,
                key_binding,
                kind,
            },
        );
        i = i + 1;
    }
    buttons
}

/// What the user has selected for a permission request with a dropdown. Without a
/// selection the last choice counts as selected.
#[derive(Debug)]
pub enum PermissionSelection {
    /// The choice with this index.
    Choice(usize),
    /// The patterns with these indices. All of them are checked when the user starts to
    /// select patterns.
    SelectedPatterns(Vec<usize>),
}

impl Clone for PermissionSelection {
    fn clone(&self) -> (r: Self)
        ensures
            r.same_as(*self),
    {
        match self {
            PermissionSelection::Choice(index) => PermissionSelection::Choice(*index),
            PermissionSelection::SelectedPatterns(checked) => {
                let copy = checked.clone();
                assert(copy@ =~= checked@);
                PermissionSelection::SelectedPatterns(copy)
            },
        }
    }
}

/// The checked patterns after the pattern `index` was toggled: where it is checked, the
/// last one takes the place of its first occurrence, else it comes last.
pub open spec fn toggled(checked: Seq<usize>, index: usize) -> Seq<usize> {
    if checked.contains(index) {
        checked.update(checked.index_of_first(index)->0, checked.last()).drop_last()
    } else {
        checked.push(index)
    }
}

impl PermissionSelection {
    /// Whether the two select the same.
    pub open spec fn same_as(self, other: Self) -> bool {
        match (self, other) {
            (PermissionSelection::Choice(a), PermissionSelection::Choice(b)) => a == b,
            (
                PermissionSelection::SelectedPatterns(a),
                PermissionSelection::SelectedPatterns(b),
            ) => a@ == b@,
            _ => false,
        }
    }

    /// The checked patterns in order; nothing where a choice is selected.
    pub open spec fn patterns(self) -> Seq<usize> {
        match self {
            PermissionSelection::Choice(_) => seq![],
            PermissionSelection::SelectedPatterns(checked) => checked@,
        }
    }

    /// The index of the selected choice, nothing where patterns are selected.
    pub fn choice_index(&self) -> (r: Option<usize>)
        ensures
            r == (match *self {
                PermissionSelection::Choice(index) => Some(index),
                PermissionSelection::SelectedPatterns(_) => None,
            }),
    {
        match self {
            PermissionSelection::Choice(index) => Some(*index),
            PermissionSelection::SelectedPatterns(_) => None,
        }
    }

    /// Whether the pattern is checked.
    pub fn is_pattern_checked(&self, index: usize) -> (r: bool)
        ensures
            r == self.patterns().contains(index),
    {
        match self {
            PermissionSelection::SelectedPatterns(checked) => position(checked, index).is_some(),
            _ => false,
        }
    }

    /// Whether a pattern is checked.
    pub fn has_any_checked_patterns(&self) -> (r: bool)
        ensures
            r == (self.patterns().len() > 0),
    {
        match self {
            PermissionSelection::SelectedPatterns(checked) => checked.len() > 0,
            _ => false,
        }
    }

    /// Checks or unchecks the pattern; nothing happens where a choice is selected.
    pub fn toggle_pattern(&mut self, index: usize)
        ensures
            match *old(self) {
                PermissionSelection::Choice(_) => *final(self) == *old(self),
                PermissionSelection::SelectedPatterns(checked) => *final(self) is SelectedPatterns
                    && final(self).patterns() == toggled(checked@, index),
            },
    {
        match self {
            PermissionSelection::Choice(_) => {},
            PermissionSelection::SelectedPatterns(checked) => {
                let ghost before = checked@;
                match position(checked, index) {
                    Some(place) => {
                        checked.swap_remove(place);
                        assert(checked@ =~= before.update(place as int, before.last()).drop_last());
                    },
                    None => {
                        checked.push(index);
                    },
                }
            },
        }
    }

    /// The selection with the first `count` patterns checked.
    pub fn all_patterns(count: usize) -> (r: Self)
        ensures
            r is SelectedPatterns,
            r.patterns() == Seq::new(count as nat, |i: int| i as usize),
    {
        let mut checked: Vec<usize> = Vec::new();
        let mut i: usize = 0;
        while i < count
            invariant
                i <= count,
                checked@ == Seq::new(i as nat, |j: int| j as usize),
            decreases count - i,
        {
            checked.push(i);
            i = i + 1;
            assert(checked@ =~= Seq::new(i as nat, |j: int| j as usize));
        }
        PermissionSelection::SelectedPatterns(checked)
    }
}

fn position(checked: &Vec<usize>, index: usize) -> (r: Option<usize>)
    ensures
        match r {
            Some(place) => checked@.contains(index) && place == checked@.index_of_first(index)->0
                && place < checked@.len(),
            None => !checked@.contains(index),
        },
{
    let mut i: usize = 0;
    proof {
        checked@.index_of_first_ensures(index);
    }
    while i < checked.len()
        invariant
            i <= checked@.len(),
            forall|j: int| 0 <= j < i ==> checked@[j] != index,
            checked@.contains(index) ==> {
                let p = checked@.index_of_first(index)->0;
                &&& 0 <= p < checked@.len()
                &&& checked@[p] == index
                &&& forall|j: int| 0 <= j < p ==> checked@[j] != index
            },
        decreases checked@.len() - i,
    {
        if checked[i] == index {
            assert(checked@.contains(index));
            return Some(i);
        }
        i = i + 1;
    }
    None
}

/// Toggling a pattern changes whether it is checked, leaves every other pattern as it
/// was, and never checks a pattern twice.
pub proof fn toggling_changes_one_pattern(checked: Seq<usize>, index: usize, other: usize)
    requires
        checked.no_duplicates(),
    ensures
        toggled(checked, index).contains(index) == !checked.contains(index),
        other != index ==> toggled(checked, index).contains(other) == checked.contains(other),
        toggled(checked, index).no_duplicates(),
{
    let after = toggled(checked, index);
    if checked.contains(index) {
        checked.index_of_first_ensures(index);
        let p = checked.index_of_first(index)->0;
        let n = checked.len();
        assert forall|i: int| 0 <= i < after.len() implies after[i] == (if i == p {
            checked[n - 1]
        } else {
            checked[i]
        }) by {}
        assert(!after.contains(index)) by {
            assert forall|i: int| 0 <= i < after.len() implies after[i] != index by {
                if i == p {
                    assert(p != n - 1);
                }
            }
        }
        if other != index && checked.contains(other) {
            let j = choose|j: int| 0 <= j < n && checked[j] == other;
            if j == n - 1 {
                assert(after[p] == other);
            } else {
                assert(after[j] == other);
            }
        }
        if other != index && after.contains(other) {
            let j = choose|j: int| 0 <= j < after.len() && after[j] == other;
            if j == p {
                assert(checked[n - 1] == other);
            } else {
                assert(checked[j] == other);
            }
        }
    } else {
        assert(after[checked.len() as int] == index);
        if checked.contains(other) {
            let j = choose|j: int| 0 <= j < checked.len() && checked[j] == other;
            assert(after[j] == other);
        }
        if other != index && after.contains(other) {
            let j = choose|j: int| 0 <= j < after.len() && after[j] == other;
            assert(checked[j] == other);
        }
        assert(after.no_duplicates()) by {
            assert forall|i: int, j: int| 0 <= i < after.len() && 0 <= j < after.len() && i
                != j implies after[i] != after[j] by {
                if i < checked.len() {
                    assert(checked.contains(checked[i]));
                }
                if j < checked.len() {
                    assert(checked.contains(checked[j]));
                }
            }
        }
    }
}

/// A line of the menu of a permission dropdown.
pub struct PermissionMenuEntry {
    pub label: String,
    pub is_selected: bool,
}

/// The menu of a permission dropdown.
pub struct PermissionMenu {
    pub choices: Vec<PermissionMenuEntry>,
    /// The patterns, with their header and the button that closes the menu.
    pub patterns: Option<PatternMenu>,
}

/// The part of a permission menu that selects patterns.
pub struct PatternMenu {
    pub header: &'static str,
    pub entries: Vec<PermissionMenuEntry>,
    pub apply_enabled: bool,
}

/// The buttons of a permission request with a dropdown.
pub struct PermissionDropdown {
    pub entry_ix: usize,
    /// Whether the buttons show their key bindings.
    pub shows_key_bindings: bool,
    pub label: String,
    pub menu: PermissionMenu,
}

/// The index of the selected choice; the last one where none was selected.
pub open spec fn selected_choice(
    selection: Option<PermissionSelection>,
    choices: Seq<PermissionOptionChoice>,
) -> int {
    match selection {
        Some(PermissionSelection::Choice(index)) => index as int,
        _ => if choices.len() > 0 {
            choices.len() - 1
        } else {
            0
        },
    }
}

/// The label of the dropdown.
pub open spec fn dropdown_label(
    selection: Option<PermissionSelection>,
    choices: Seq<PermissionOptionChoice>,
) -> Seq<char> {
    if selection matches Some(PermissionSelection::SelectedPatterns(_)) {
        "Always for selected commands"@
    } else if choices.len() == 0 {
        "Only this time"@
    } else if selected_choice(selection, choices) < choices.len() {
        choices[selected_choice(selection, choices)].label@
    } else {
        choices.last().label@
    }
}

/// Whether the choice is shown as selected.
pub open spec fn choice_is_selected(
    selection: Option<PermissionSelection>,
    choices: Seq<PermissionOptionChoice>,
    has_patterns: bool,
    i: int,
) -> bool {
    &&& i == selected_choice(selection, choices)
    &&& has_patterns ==> !(selection matches Some(PermissionSelection::SelectedPatterns(_)))
}

/// The checked patterns of a selection.
pub open spec fn checked_patterns(selection: Option<PermissionSelection>) -> Seq<usize> {
    match selection {
        Some(s) => s.patterns(),
        None => seq![],
    }
}

/// What the menu of a dropdown shows.
pub open spec fn menu_shows(
    menu: PermissionMenu,
    choices: Seq<PermissionOptionChoice>,
    patterns: Option<Seq<PermissionPattern>>,
    selection: Option<PermissionSelection>,
) -> bool {
    &&& menu.choices@.len() == choices.len()
    &&& forall|i: int|
        0 <= i < choices.len() ==> (#[trigger] menu.choices@[i]).label == choices[i].label
            && menu.choices@[i].is_selected == choice_is_selected(
            selection,
            choices,
            patterns is Some,
            i,
        )
    &&& match (menu.patterns, patterns) {
        (Some(shown), Some(patterns)) => {
            &&& shown.header@ == "Select Options…"@
            &&& shown.entries@.len() == patterns.len()
            &&& shown.apply_enabled == (checked_patterns(selection).len() > 0)
            &&& forall|i: int|
                0 <= i < patterns.len() ==> (#[trigger] shown.entries@[i]).label@ == "Always for `"@
                    + patterns[i].display_name@ + "` commands"@ && shown.entries@[i].is_selected
                    == checked_patterns(selection).contains(i as usize)
        },
        (None, None) => true,
        _ => false,
    }
}

fn selected_choice_index(
    selection: Option<&PermissionSelection>,
    choices: &Vec<PermissionOptionChoice>,
) -> (r: usize)
    ensures
        r == selected_choice(
            match selection {
                Some(s) => Some(*s),
                None => None,
            },
            choices@,
        ),
{
    let default: usize = if choices.len() > 0 {
        choices.len() - 1
    } else {
        0
    };
    match selection {
        Some(s) => match s.choice_index() {
            Some(index) => index,
            None => default,
        },
        None => default,
    }
}

fn choice_entries(
    choices: &Vec<PermissionOptionChoice>,
    selected_index: usize,
    marks_selected: bool,
) -> (entries: Vec<PermissionMenuEntry>)
    ensures
        entries@.len() == choices@.len(),
        forall|j: int|
            0 <= j < choices@.len() ==> (#[trigger] entries@[j]).label == choices@[j].label
                && entries@[j].is_selected == (j == selected_index && marks_selected),
{
    let mut entries: Vec<PermissionMenuEntry> = Vec::new();
    let mut i: usize = 0;
    while i < choices.len()
        invariant
            i <= choices@.len(),
            entries@.len() == i,
            forall|j: int|
                0 <= j < i ==> (#[trigger] entries@[j]).label == choices@[j].label
                    && entries@[j].is_selected == (j == selected_index && marks_selected),
        decreases choices@.len() - i,
    {
        let is_selected = i == selected_index && marks_selected;
        entries.push(PermissionMenuEntry { label: choices[i].label.clone(), is_selected });
        i = i + 1;
    }
    entries
}

/// The menu of a dropdown without patterns.
pub fn render_permission_granularity_dropdown(
    choices: &Vec<PermissionOptionChoice>,
    selection: Option<&PermissionSelection>,
) -> (r: PermissionMenu)
    ensures
        menu_shows(
            r,
            choices@,
            None,
            match selection {
                Some(s) => Some(*s),
                None => None,
            },
        ),
{
    let selected_index = selected_choice_index(selection, choices);
    PermissionMenu { choices: choice_entries(choices, selected_index, true), patterns: None }
}

/// The menu of a dropdown with patterns. While patterns are selected, no choice is.
pub fn render_permission_granularity_dropdown_with_patterns(
    choices: &Vec<PermissionOptionChoice>,
    patterns: &Vec<PermissionPattern>,
    selection: Option<&PermissionSelection>,
) -> (r: PermissionMenu)
    ensures
        menu_shows(
            r,
            choices@,
            Some(patterns@),
            match selection {
                Some(s) => Some(*s),
                None => None,
            },
        ),
{
    let selected_index = selected_choice_index(selection, choices);
    let is_pattern_mode = match selection {
        Some(s) => matches!(s, PermissionSelection::SelectedPatterns(_)),
        None => false,
    };
    PermissionMenu {
        choices: choice_entries(choices, selected_index, !is_pattern_mode),
        patterns: Some(pattern_menu(patterns, selection)),
    }
}

/// The buttons and the menu of a permission request with a dropdown.
pub fn render_permission_buttons_with_dropdown(
    is_first: bool,
    choices: &Vec<PermissionOptionChoice>,
    patterns: Option<&Vec<PermissionPattern>>,
    selection: Option<&PermissionSelection>,
    entry_ix: usize,
) -> (r: PermissionDropdown)
    ensures
        ({
            let selected = match selection {
                Some(s) => Some(*s),
                None => None,
            };
            let listed = match patterns {
                Some(p) => Some(p@),
                None => None,
            };
            &&& r.entry_ix == entry_ix
            &&& r.shows_key_bindings == is_first
            &&& r.label@ == dropdown_label(selected, choices@)
            &&& menu_shows(r.menu, choices@, listed, selected)
        }),
{
    let selected_index = selected_choice_index(selection, choices);
    let is_pattern_mode = match selection {
        Some(s) => matches!(s, PermissionSelection::SelectedPatterns(_)),
        None => false,
    };
    let label: String = if is_pattern_mode {
        "Always for selected commands".to_owned()
    } else if selected_index < choices.len() {
        choices[selected_index].label.clone()
    } else if choices.len() > 0 {
        choices[choices.len() - 1].label.clone()
    } else {
        "Only this time".to_owned()
    };
    let menu = match patterns {
        None => render_permission_granularity_dropdown(choices, selection),
        Some(patterns) => render_permission_granularity_dropdown_with_patterns(
            choices,
            patterns,
            selection,
        ),
    };
    PermissionDropdown { entry_ix, shows_key_bindings: is_first, label, menu }
}

fn pattern_menu(
    patterns: &Vec<PermissionPattern>,
    selection: Option<&PermissionSelection>,
) -> (r: PatternMenu)
    ensures
        ({
            let checked = match selection {
                Some(s) => s.patterns(),
                None => seq![],
            };
            &&& r.header@ == "Select Options…"@
            &&& r.entries@.len() == patterns@.len()
            &&& r.apply_enabled == (checked.len() > 0)
            &&& forall|i: int|
                0 <= i < patterns@.len() ==> (#[trigger] r.entries@[i]).label@ == "Always for `"@
                    + patterns@[i].display_name@ + "` commands"@ && r.entries@[i].is_selected
                    == checked.contains(i as usize)
        }),
{
    let ghost checked = match selection {
        Some(s) => s.patterns(),
        None => seq![],
    };
    let mut entries: Vec<PermissionMenuEntry> = Vec::new();
    let mut i: usize = 0;
    while i < patterns.len()
        invariant
            i <= patterns@.len(),
            entries@.len() == i,
            checked == (match selection {
                Some(s) => s.patterns(),
                None => seq![],
            }),
            forall|j: int|
                0 <= j < i ==> (#[trigger] entries@[j]).label@ == "Always for `"@
                    + patterns@[j].display_name@ + "` commands"@ && entries@[j].is_selected
                    == checked.contains(j as usize),
        decreases patterns@.len() - i,
    {
        let label = text::concat3("Always for `", patterns[i].display_name.as_str(), "` commands");
        let is_selected = match selection {
            Some(s) => s.is_pattern_checked(i),
            None => false,
        };
        entries.push(PermissionMenuEntry { label, is_selected });
        i = i + 1;
    }
    let apply_enabled = match selection {
        Some(s) => s.has_any_checked_patterns(),
        None => false,
    };
    PatternMenu { header: "Select Options…", entries, apply_enabled }
}

/// The buttons of a permission request.
pub enum PermissionButtons {
    Flat(Vec<PermissionButton>),
    Dropdown(PermissionDropdown),
}

/// What the buttons of a permission request show.
pub open spec fn buttons_show(
    buttons: PermissionButtons,
    is_first: bool,
    options: PermissionOptions,
    selection: Option<PermissionSelection>,
    entry_ix: usize,
) -> bool {
    match (buttons, options) {
        (PermissionButtons::Flat(shown), PermissionOptions::Flat(options)) => {
            &&& shown@.len() == options@.len()
            &&& forall|i: int|
                0 <= i < shown@.len() ==> {
                    &&& (#[trigger] shown@[i]).option_id == options@[i].option_id
                    &&& shown@[i].entry_ix == entry_ix
                    &&& shown@[i].name == options@[i].name
                    &&& (shown@[i].icon, shown@[i].icon_color) == icon_for(options@[i].kind)
                    &&& shown@[i].key_binding == binding_of(options@, i, is_first)
                    &&& shown@[i].kind == options@[i].kind
                }
        },
        (PermissionButtons::Dropdown(shown), PermissionOptions::Dropdown(choices)) => {
            &&& shown.entry_ix == entry_ix
            &&& shown.shows_key_bindings == is_first
            &&& shown.label@ == dropdown_label(selection, choices@)
            &&& menu_shows(shown.menu, choices@, None, selection)
        },
        (
            PermissionButtons::Dropdown(shown),
            PermissionOptions::DropdownWithPatterns { choices, patterns, .. },
        ) => {
            &&& shown.entry_ix == entry_ix
            &&& shown.shows_key_bindings == is_first
            &&& shown.label@ == dropdown_label(selection, choices@)
            &&& menu_shows(shown.menu, choices@, Some(patterns@), selection)
        },
        _ => false,
    }
}

/// The buttons of a permission request, laid out as its options ask for.
pub fn render_permission_buttons(
    is_first: bool,
    options: &PermissionOptions,
    selection: Option<&PermissionSelection>,
    entry_ix: usize,
) -> (r: PermissionButtons)
    ensures
        buttons_show(
            r,
            is_first,
            *options,
            match selection {
                Some(s) => Some(*s),
                None => None,
            },
            entry_ix,
        ),
{
    match options {
        PermissionOptions::Flat(flat) => PermissionButtons::Flat(
            render_permission_buttons_flat(is_first, flat, entry_ix),
        ),
        PermissionOptions::Dropdown(choices) => PermissionButtons::Dropdown(
            render_permission_buttons_with_dropdown(is_first, choices, None, selection, entry_ix),
        ),
        PermissionOptions::DropdownWithPatterns { choices, patterns, .. } =>
            PermissionButtons::Dropdown(
            render_permission_buttons_with_dropdown(
                is_first,
                choices,
                Some(patterns),
                selection,
                entry_ix,
            ),
        ),
    }
}

/// The number of patterns that the entry offers, where it is the tool call with this
/// identifier and waits for an answer with patterns.
pub open spec fn offered_patterns(entry: AgentThreadEntry, id: Seq<char>) -> Option<nat> {
    match entry.content {
        EntryContent::ToolCall(call) => if call.id.key() == id {
            match call.status {
                ToolCallStatus::WaitingForConfirmation {
                    options: PermissionOptions::DropdownWithPatterns { patterns, .. },
                } => Some(patterns@.len()),
                _ => None,
            }
        } else {
            None
        },
        _ => None,
    }
}

/// The number of patterns that the first entry that offers any offers.
pub open spec fn pattern_count(entries: Seq<AgentThreadEntry>, id: Seq<char>) -> nat
    decreases entries.len(),
{
    if entries.len() == 0 {
        0
    } else {
        match offered_patterns(entries[0], id) {
            Some(n) => n,
            None => pattern_count(entries.drop_first(), id),
        }
    }
}

/// The number of patterns that the tool call offers.
pub fn count_patterns(entries: &Vec<AgentThreadEntry>, id: &ToolCallId) -> (r: usize)
    ensures
        r == pattern_count(entries@, id.key()),
{
    let mut i: usize = 0;
    assert(entries@.subrange(0, entries@.len() as int) == entries@);
    while i < entries.len()
        invariant
            i <= entries@.len(),
            pattern_count(entries@, id.key()) == pattern_count(
                entries@.subrange(i as int, entries@.len() as int),
                id.key(),
            ),
        decreases entries@.len() - i,
    {
        let ghost rest = entries@.subrange(i as int, entries@.len() as int);
        assert(rest.drop_first() == entries@.subrange(i + 1, entries@.len() as int));
        assert(rest[0] == entries@[i as int]);
        match &entries[i].content {
            EntryContent::ToolCall(call) => {
                if call.id.same_key(id) {
                    match &call.status {
                        ToolCallStatus::WaitingForConfirmation { options } => {
                            match options {
                                PermissionOptions::DropdownWithPatterns { patterns, .. } => {
                                    return patterns.len();
                                },
                                _ => {},
                            }
                        },
                        _ => {},
                    }
                }
            },
            _ => {},
        }
        i = i + 1;
    }
    0
}

/// The permission option kind that an action names; an unknown name stands for allowing
/// once.
pub open spec fn named_kind(name: Seq<char>) -> PermissionOptionKind {
    if name == "AllowAlways"@ {
        PermissionOptionKind::AllowAlways
    } else if name == "RejectOnce"@ {
        PermissionOptionKind::RejectOnce
    } else if name == "RejectAlways"@ {
        PermissionOptionKind::RejectAlways
    } else {
        PermissionOptionKind::AllowOnce
    }
}

/// The permission option kind that an action names.
pub fn option_kind(name: &str) -> (r: PermissionOptionKind)
    ensures
        r == named_kind(name@),
{
    if text::same_text(name, "AllowAlways") {
        PermissionOptionKind::AllowAlways
    } else if text::same_text(name, "RejectOnce") {
        PermissionOptionKind::RejectOnce
    } else if text::same_text(name, "RejectAlways") {
        PermissionOptionKind::RejectAlways
    } else {
        PermissionOptionKind::AllowOnce
    }
}

/// An answer to a permission request.
pub struct Authorization {
    pub session_id: String,
    pub tool_call_id: ToolCallId,
    pub option_id: String,
    pub option_kind: PermissionOptionKind,
    /// Whether the workspace follows the agent again.
    pub follow: bool,
}

/// An answer to a permission request, as far as the user has selected.
pub struct GranularAuthorization {
    pub session_id: String,
    pub tool_call_id: ToolCallId,
    pub selection: Option<PermissionSelection>,
    pub is_allow: bool,
    /// Whether the workspace follows the agent again.
    pub follow: bool,
}

/// How the pending permission request is answered.
#[derive(Clone, Copy, PartialEq, Eq, Structural, Debug)]
pub enum PendingAnswer {
    /// By the option of this kind.
    Kind(PermissionOptionKind),
    /// As far as the user has selected.
    Selected { is_allow: bool },
}

/// Whether the answer is for this call and holds what the user has selected for it.
pub open spec fn granular_answer(
    view: ThreadView,
    answer: GranularAuthorization,
    session_id: Seq<char>,
    tool_call_id: Seq<char>,
    is_allow: bool,
) -> bool {
    let selections = view.permission_selections@;
    &&& answer.session_id@ == session_id
    &&& answer.tool_call_id.key() == tool_call_id
    &&& answer.is_allow == is_allow
    &&& answer.follow == view.should_be_following
    &&& answer.selection is Some <==> selections.contains_key(tool_call_id)
    &&& answer.selection matches Some(selection) ==> selection.same_as(selections[tool_call_id])
}

fn toggle_selection(
    selections: &mut KeyMap<ToolCallId, PermissionSelection>,
    id: ToolCallId,
    pattern_index: usize,
    count: usize,
)
    ensures
        ({
            let before = old(selections)@;
            let after = final(selections)@;
            &&& after == before.insert(id.key(), after[id.key()])
            &&& after[id.key()] is SelectedPatterns
            &&& after[id.key()].patterns() == (if before.contains_key(id.key())
                && before[id.key()] is SelectedPatterns {
                toggled(before[id.key()].patterns(), pattern_index)
            } else {
                Seq::new(count as nat, |i: int| i as usize)
            })
        }),
{
    let ghost before = selections@;
    let ghost key = id.key();
    let removed = selections.remove(&id);
    let selection = match removed {
        Some(PermissionSelection::SelectedPatterns(checked)) => {
            let mut selection = PermissionSelection::SelectedPatterns(checked);
            selection.toggle_pattern(pattern_index);
            selection
        },
        Some(PermissionSelection::Choice(_)) => PermissionSelection::all_patterns(count),
        None => PermissionSelection::all_patterns(count),
    };
    selections.insert(id, selection);
    assert(selections@ =~= before.insert(key, selections@[key]));
}

fn select_all_patterns(
    selections: &mut KeyMap<ToolCallId, PermissionSelection>,
    id: ToolCallId,
    count: usize,
)
    ensures
        ({
            let before = old(selections)@;
            let after = final(selections)@;
            &&& after == before.insert(id.key(), after[id.key()])
            &&& after[id.key()] is SelectedPatterns
            &&& after[id.key()].patterns() == Seq::new(count as nat, |i: int| i as usize)
        }),
{
    selections.insert(id, PermissionSelection::all_patterns(count));
}

impl ThreadView {
    /// Answers a permission request with an option, given by its name and that of its kind.
    pub fn handle_authorize_tool_call(
        &self,
        tool_call_id: &str,
        option_id: &str,
        option_kind: &str,
    ) -> (r: Authorization)
        ensures
            r.session_id@ == self.session_id@,
            r.tool_call_id.key() == tool_call_id@,
            r.option_id@ == option_id@,
            r.option_kind == named_kind(option_kind@),
            r.follow == self.should_be_following,
    {
        self.authorize_tool_call(
            self.session_id.clone(),
            ToolCallId::new(tool_call_id),
            option_id.to_owned(),
            self::option_kind(option_kind),
        )
    }

    /// Answers a permission request with an option.
    pub fn authorize_tool_call(
        &self,
        session_id: String,
        tool_call_id: ToolCallId,
        option_id: String,
        option_kind: PermissionOptionKind,
    ) -> (r: Authorization)
        ensures
            r == (Authorization {
                session_id,
                tool_call_id,
                option_id,
                option_kind,
                follow: self.should_be_following,
            }),
    {
        Authorization {
            session_id,
            tool_call_id,
            option_id,
            option_kind,
            follow: self.should_be_following,
        }
    }

    /// Allows the pending call, now and later.
    pub fn allow_always(&self) -> (r: PendingAnswer)
        ensures
            r == PendingAnswer::Kind(PermissionOptionKind::AllowAlways),
    {
        PendingAnswer::Kind(PermissionOptionKind::AllowAlways)
    }

    /// Allows the pending call as far as the user has selected.
    pub fn allow_once(&self) -> (r: PendingAnswer)
        ensures
            r == (PendingAnswer::Selected { is_allow: true }),
    {
        PendingAnswer::Selected { is_allow: true }
    }

    /// Rejects the pending call as far as the user has selected.
    pub fn reject_once(&self) -> (r: PendingAnswer)
        ensures
            r == (PendingAnswer::Selected { is_allow: false }),
    {
        PendingAnswer::Selected { is_allow: false }
    }

    /// Answers the pending permission request. Gives nothing where there was none, else
    /// whether the workspace follows the agent again.
    pub fn authorize_pending_tool_call(&self, was_pending: bool) -> (r: Option<bool>)
        ensures
            r == (if was_pending {
                Some(self.should_be_following)
            } else {
                None
            }),
    {
        if was_pending {
            Some(self.should_be_following)
        } else {
            None
        }
    }

    /// Selects a choice of a permission dropdown.
    pub fn handle_select_permission_granularity(&mut self, tool_call_id: &str, index: usize)
        ensures
            *final(self) == (ThreadView {
                permission_selections: final(self).permission_selections,
                ..*old(self)
            }),
            final(self).permission_selections@ == old(self).permission_selections@.insert(
                tool_call_id@,
                PermissionSelection::Choice(index),
            ),
    {
        self.permission_selections.insert(
            ToolCallId::new(tool_call_id),
            PermissionSelection::Choice(index),
        );
    }

    /// Toggles a pattern of a permission request. The first click selects all patterns that
    /// the request offers.
    pub fn handle_toggle_command_pattern(
        &mut self,
        thread: &AcpThread,
        tool_call_id: &str,
        pattern_index: usize,
    )
        ensures
            *final(self) == (ThreadView {
                permission_selections: final(self).permission_selections,
                ..*old(self)
            }),
            ({
                let before = old(self).permission_selections@;
                let after = final(self).permission_selections@;
                let id = tool_call_id@;
                &&& after == before.insert(id, after[id])
                &&& after[id] is SelectedPatterns
                &&& after[id].patterns() == (if before.contains_key(id)
                    && before[id] is SelectedPatterns {
                    toggled(before[id].patterns(), pattern_index)
                } else {
                    Seq::new(
                        pattern_count(thread.entries@, id),
                        |i: int| i as usize,
                    )
                })
            }),
    {
        let id = ToolCallId::new(tool_call_id);
        let count = count_patterns(&thread.entries, &id);
        toggle_selection(&mut self.permission_selections, id, pattern_index, count);
    }

    /// Answers the pending permission request, where there is one, as far as the user has
    /// selected.
    pub fn authorize_pending_with_granularity(
        &self,
        pending: Option<(String, ToolCallId)>,
        is_allow: bool,
    ) -> (r: Option<GranularAuthorization>)
        ensures
            r is Some <==> pending is Some,
            match (r, pending) {
                (Some(authorization), Some((session_id, tool_call_id))) => granular_answer(
                    *self,
                    authorization,
                    session_id@,
                    tool_call_id.key(),
                    is_allow,
                ),
                _ => true,
            },
    {
        match pending {
            Some((session_id, tool_call_id)) => Some(
                self.authorize_with_granularity(session_id, tool_call_id, is_allow),
            ),
            None => None,
        }
    }

    /// Answers a permission request as far as the user has selected.
    pub fn authorize_with_granularity(
        &self,
        session_id: String,
        tool_call_id: ToolCallId,
        is_allow: bool,
    ) -> (r: GranularAuthorization)
        ensures
            granular_answer(*self, r, session_id@, tool_call_id.key(), is_allow),
    {
        let selection = match self.permission_selections.get(&tool_call_id) {
            Some(selection) => Some(selection.clone()),
            None => None,
        };
        GranularAuthorization {
            session_id,
            tool_call_id,
            selection,
            is_allow,
            follow: self.should_be_following,
        }
    }

    /// Allows a call for all patterns that its request offers, which are selected from then
    /// on.
    pub fn allow_all_patterns(
        &mut self,
        session_id: String,
        tool_call_id: ToolCallId,
        count: usize,
    ) -> (r: GranularAuthorization)
        ensures
            *final(self) == (ThreadView {
                permission_selections: final(self).permission_selections,
                ..*old(self)
            }),
            ({
                let before = old(self).permission_selections@;
                let after = final(self).permission_selections@;
                let id = tool_call_id.key();
                &&& after == before.insert(id, after[id])
                &&& after[id] is SelectedPatterns
                &&& after[id].patterns() == Seq::new(count as nat, |i: int| i as usize)
            }),
            granular_answer(*final(self), r, session_id@, tool_call_id.key(), true),
    {
        select_all_patterns(&mut self.permission_selections, tool_call_id.clone(), count);
        self.authorize_with_granularity(session_id, tool_call_id, true)
    }
}

/// The call that offers patterns under an identifier decides how many there are, wherever it
/// stands: entries before it that are not that call, or offer no patterns, do not matter.
pub proof fn the_offering_call_decides_the_count(
    entries: Seq<AgentThreadEntry>,
    id: Seq<char>,
    i: int,
    n: nat,
)
    requires
        0 <= i < entries.len(),
        offers(entries[i], id, n),
        forall|j: int, m: nat| 0 <= j < i ==> !#[trigger] offers(entries[j], id, m),
    ensures
        pattern_count(entries, id) == n,
    decreases i,
{
    if i > 0 {
        let rest = entries.drop_first();
        assert(rest[i - 1] == entries[i]);
        assert forall|j: int, m: nat| 0 <= j < i - 1 implies !#[trigger] offers(rest[j], id, m) by {
            assert(rest[j] == entries[j + 1]);
            assert(!offers(entries[j + 1], id, m));
        }
        the_offering_call_decides_the_count(rest, id, i - 1, n);
        match offered_patterns(entries[0], id) {
            Some(m) => {
                assert(offers(entries[0], id, m));
            },
            None => {},
        }
    }
}

/// Whether the entry is the call with this identifier and waits for an answer with `n` patterns.
pub open spec fn offers(entry: AgentThreadEntry, id: Seq<char>, n: nat) -> bool {
    &&& entry.content is ToolCall
    &&& entry.content->ToolCall_0.id.value@ == id
    &&& entry.content->ToolCall_0.status matches ToolCallStatus::WaitingForConfirmation { options }
        && options matches PermissionOptions::DropdownWithPatterns { patterns, .. }
        && patterns@.len() == n
}

/// Where no call offers patterns under an identifier, there are none.
pub proof fn without_an_offering_call_there_are_no_patterns(
    entries: Seq<AgentThreadEntry>,
    id: Seq<char>,
)
    requires
        forall|j: int, m: nat| 0 <= j < entries.len() ==> !#[trigger] offers(entries[j], id, m),
    ensures
        pattern_count(entries, id) == 0,
    decreases entries.len(),
{
    if entries.len() > 0 {
        let rest = entries.drop_first();
        assert forall|j: int, m: nat| 0 <= j < rest.len() implies !#[trigger] offers(
            rest[j],
            id,
            m,
        ) by {
            assert(rest[j] == entries[j + 1]);
            assert(!offers(entries[j + 1], id, m));
        }
        without_an_offering_call_there_are_no_patterns(rest, id);
        match offered_patterns(entries[0], id) {
            Some(m) => {
                assert(offers(entries[0], id, m));
            },
            None => {},
        }
    }
}

/// A button shows a key binding exactly where the request is the one that key bindings answer,
/// the button is the first of its kind, and its kind has a binding: the two ways to allow, and
/// to reject once.
pub proof fn bindings_stand_on_the_first_button_of_a_kind(
    options: Seq<PermissionOption>,
    i: int,
    is_first: bool,
)
    requires
        0 <= i < options.len(),
    ensures
        binding_of(options, i, is_first) is Some <==> is_first && (options[i].kind
            == PermissionOptionKind::AllowOnce || options[i].kind
            == PermissionOptionKind::AllowAlways || options[i].kind
            == PermissionOptionKind::RejectOnce) && forall|j: int|
            0 <= j < i ==> (#[trigger] options[j]).kind != options[i].kind,
        binding_of(options, i, is_first) == Some(PermissionAction::AllowOnce) ==> options[i].kind
            == PermissionOptionKind::AllowOnce,
        binding_of(options, i, is_first) == Some(PermissionAction::AllowAlways) ==> options[i].kind
            == PermissionOptionKind::AllowAlways,
        binding_of(options, i, is_first) == Some(PermissionAction::RejectOnce) ==> options[i].kind
            == PermissionOptionKind::RejectOnce,
{
    if kind_seen_before(options, i) {
        let j = choose|j: int| 0 <= j < i && (#[trigger] options[j]).kind == options[i].kind;
        assert(options[j].kind == options[i].kind);
    }
}

/// No two buttons of a request show the same key binding.
pub proof fn no_binding_stands_twice(
    options: Seq<PermissionOption>,
    i: int,
    j: int,
    is_first: bool,
)
    requires
        0 <= i < j < options.len(),
        binding_of(options, i, is_first) is Some,
    ensures
        binding_of(options, j, is_first) != binding_of(options, i, is_first),
{
    bindings_stand_on_the_first_button_of_a_kind(options, i, is_first);
    bindings_stand_on_the_first_button_of_a_kind(options, j, is_first);
    if options[i].kind == options[j].kind {
        assert(kind_seen_before(options, j));
    }
}

/// The icons of answers that allow are checks in the colour of success, a double one for always;
/// all others are crosses in the colour of an error.
pub proof fn icons_tell_allowing_from_rejecting(kind: PermissionOptionKind)
    ensures
        icon_for(kind).0 == IconName::Check <==> kind == PermissionOptionKind::AllowOnce,
        icon_for(kind).0 == IconName::CheckDouble <==> kind == PermissionOptionKind::AllowAlways,
        icon_for(kind).0 == IconName::Close <==> icon_for(kind).1 == Color::Error,
        icon_for(kind).1 == Color::Success <==> kind == PermissionOptionKind::AllowOnce || kind
            == PermissionOptionKind::AllowAlways,
        icon_for(kind).1 == Color::Success || icon_for(kind).1 == Color::Error,
{
}

/// The buttons of a flat request give its answers in order, each under its name.
pub proof fn flat_buttons_give_the_answers(
    buttons: PermissionButtons,
    is_first: bool,
    options: Vec<PermissionOption>,
    selection: Option<PermissionSelection>,
    entry_ix: usize,
    i: int,
)
    requires
        buttons_show(
            buttons,
            is_first,
            PermissionOptions::Flat(options),
            selection,
            entry_ix,
        ),
        0 <= i < options@.len(),
    ensures
        buttons matches PermissionButtons::Flat(shown) && {
            &&& shown@.len() == options@.len()
            &&& shown@[i].option_id == options@[i].option_id
            &&& shown@[i].name == options@[i].name
            &&& shown@[i].kind == options@[i].kind
            &&& shown@[i].entry_ix == entry_ix
            &&& !is_first ==> shown@[i].key_binding is None
            &&& shown@[i].icon_color == Color::Success <==> options@[i].kind
                == PermissionOptionKind::AllowOnce || options@[i].kind
                == PermissionOptionKind::AllowAlways
        },
{
}

/// A dropdown shows the choice that the user selected, and the last one where none was selected;
/// while patterns are selected, its label says so and no choice is marked. The patterns that are
/// checked are marked, and can be applied where there is one.
pub proof fn dropdowns_show_the_selection(
    buttons: PermissionButtons,
    is_first: bool,
    options: PermissionOptions,
    selection: Option<PermissionSelection>,
    entry_ix: usize,
    choices: Seq<PermissionOptionChoice>,
    i: int,
    k: int,
)
    requires
        buttons_show(buttons, is_first, options, selection, entry_ix),
        match options {
            PermissionOptions::Flat(_) => false,
            PermissionOptions::Dropdown(all) => all@ == choices,
            PermissionOptions::DropdownWithPatterns { choices: all, .. } => all@ == choices,
        },
        0 <= i < choices.len() <= usize::MAX,
    ensures
        buttons matches PermissionButtons::Dropdown(shown) && {
            &&& shown.entry_ix == entry_ix
            &&& shown.shows_key_bindings == is_first
            &&& shown.menu.choices@.len() == choices.len()
            &&& shown.menu.choices@[i].label == choices[i].label
            &&& shown.menu.patterns is Some <==> options is DropdownWithPatterns
            &&& match selection {
                None => shown.label@ == choices.last().label@ && (
                shown.menu.choices@[i].is_selected <==> i == choices.len() - 1),
                Some(PermissionSelection::Choice(index)) => {
                    &&& shown.label@ == (if index < choices.len() {
                        choices[index as int].label@
                    } else {
                        choices.last().label@
                    })
                    &&& shown.menu.choices@[i].is_selected <==> i == index
                },
                Some(PermissionSelection::SelectedPatterns(_)) => {
                    &&& shown.label@ == "Always for selected commands"@
                    &&& options is DropdownWithPatterns ==> !shown.menu.choices@[i].is_selected
                },
            }
            &&& options matches PermissionOptions::DropdownWithPatterns { patterns, .. } ==> (0 <= k
                < patterns@.len() <= usize::MAX ==> {
                let checked = match selection {
                    Some(PermissionSelection::SelectedPatterns(checked)) => checked@,
                    _ => Seq::<usize>::empty(),
                };
                &&& shown.menu.patterns->0.entries@.len() == patterns@.len()
                &&& shown.menu.patterns->0.entries@[k].label@ == "Always for `"@
                    + patterns@[k].display_name@ + "` commands"@
                &&& shown.menu.patterns->0.entries@[k].is_selected <==> checked.contains(
                    k as usize,
                )
                &&& shown.menu.patterns->0.apply_enabled <==> checked.len() != 0
            })
        },
{
}

/// An action names the kind that it spells out; every other name stands for allowing once.
pub proof fn actions_name_their_kinds(name: Seq<char>)
    ensures
        named_kind(name) == PermissionOptionKind::AllowAlways <==> name == "AllowAlways"@,
        named_kind(name) == PermissionOptionKind::RejectOnce <==> name == "RejectOnce"@,
        named_kind(name) == PermissionOptionKind::RejectAlways <==> name == "RejectAlways"@,
        named_kind(name) != PermissionOptionKind::Other,
{
    reveal_strlit("AllowAlways");
    reveal_strlit("RejectOnce");
    reveal_strlit("RejectAlways");
    assert("AllowAlways"@.len() == 11);
    assert("RejectOnce"@.len() == 10);
    assert("RejectAlways"@.len() == 12);
}

/// The answer to a request is for the call that asked, says what the user said, and carries what
/// the user has selected for that call and nothing else.
pub proof fn answers_carry_the_selection(
    view: ThreadView,
    answer: GranularAuthorization,
    session_id: Seq<char>,
    tool_call_id: Seq<char>,
    is_allow: bool,
    i: usize,
)
    requires
        granular_answer(view, answer, session_id, tool_call_id, is_allow),
    ensures
        answer.session_id@ == session_id,
        answer.tool_call_id.value@ == tool_call_id,
        answer.is_allow == is_allow,
        answer.follow == view.should_be_following,
        answer.selection is None <==> !view.permission_selections@.dom().contains(tool_call_id),
        answer.selection matches Some(given) ==> {
            let kept = view.permission_selections@[tool_call_id];
            &&& given == PermissionSelection::Choice(i) <==> kept == PermissionSelection::Choice(i)
            &&& given.patterns() == kept.patterns()
        },
{
}

/// The checked patterns of a selection are those that it lists; a choice has none.
pub proof fn a_selection_lists_its_patterns(checked: Vec<usize>, index: usize)
    ensures
        PermissionSelection::SelectedPatterns(checked).patterns() == checked@,
        PermissionSelection::Choice(index).patterns().len() == 0,
        PermissionSelection::SelectedPatterns(checked).same_as(
            PermissionSelection::SelectedPatterns(checked),
        ),
        !PermissionSelection::Choice(index).same_as(PermissionSelection::SelectedPatterns(checked)),
{
}

/// Toggling a pattern twice leaves the same patterns checked.
pub proof fn toggling_twice_changes_nothing(checked: Seq<usize>, index: usize, other: usize)
    requires
        checked.no_duplicates(),
    ensures
        toggled(toggled(checked, index), index).contains(other) == checked.contains(other),
{
    toggling_changes_one_pattern(checked, index, other);
    toggling_changes_one_pattern(toggled(checked, index), index, other);
}

/// Without choices the dropdown stands for this time only, unless patterns are selected. The
/// patterns of a menu stand below a heading of their own.
pub proof fn dropdowns_without_choices_stand_for_this_time(
    selection: Option<PermissionSelection>,
    menu: PermissionMenu,
    choices: Seq<PermissionOptionChoice>,
    patterns: Seq<PermissionPattern>,
)
    requires
        menu_shows(menu, choices, Some(patterns), selection),
    ensures
        !(selection matches Some(PermissionSelection::SelectedPatterns(_))) ==> dropdown_label(
            selection,
            seq![],
        ) == "Only this time"@,
        menu.patterns is Some,
        menu.patterns->0.header@ == "Select Options…"@,
        menu.patterns->0.entries@.len() == patterns.len(),
{
}

} // verus!
