//! Skills that could not be loaded, and which of these errors the user has dismissed.

use crate::callouts::SkillLoadingError;
use crate::keyed::Keyed;
use crate::keyed;
use crate::thread_view::ThreadView;
use vstd::prelude::*;

verus! {

/// The errors that are shown: those that are not dismissed.
pub open spec fn shown_errors(
    errors: Seq<SkillLoadingError>,
    dismissed: Set<(Seq<char>, Seq<char>)>,
) -> Seq<SkillLoadingError>
    decreases errors.len(),
{
    if errors.len() == 0 {
        seq![]
    } else if dismissed.contains(errors.last().key()) {
        shown_errors(errors.drop_last(), dismissed)
    } else {
        shown_errors(errors.drop_last(), dismissed).push(errors.last())
    }
}

impl ThreadView {
    /// Takes in the skills that could not be loaded. A dismissal ends once its error no longer
    /// occurs; errors that are not dismissed are shown.
    pub fn update_skill_loading_errors(&mut self, errors: &Vec<SkillLoadingError>)
        ensures
            *final(self) == (ThreadView {
                skill_loading_errors: final(self).skill_loading_errors,
                dismissed_skill_loading_errors: final(self).dismissed_skill_loading_errors,
                ..*old(self)
            }),
            final(self).dismissed_skill_loading_errors@
                == old(self).dismissed_skill_loading_errors@.intersect(
                keyed::keys(errors@).to_set(),
            ),
            final(self).skill_loading_errors@ == shown_errors(
                errors@,
                final(self).dismissed_skill_loading_errors@,
            ),
    {
        self.dismissed_skill_loading_errors.retain_in(errors);
        let ghost dismissed = self.dismissed_skill_loading_errors@;
        let mut shown: Vec<SkillLoadingError> = Vec::new();
        let mut i: usize = 0;
        while i < errors.len()
            invariant
                i <= errors@.len(),
                dismissed == self.dismissed_skill_loading_errors@,
                shown@ == shown_errors(errors@.take(i as int), dismissed),
            decreases errors@.len() - i,
        {
            assert(errors@.take(i + 1).drop_last() == errors@.take(i as int));
            if !self.dismissed_skill_loading_errors.contains(&errors[i]) {
                shown.push(errors[i].clone());
            }
            i = i + 1;
        }
        assert(errors@.take(i as int) == errors@);
        self.skill_loading_errors = shown;
    }

    /// Takes in what the agent tells of the skills of a project. What it tells of another
    /// project than that of the view changes nothing.
    pub fn handle_skill_loading_errors(
        &mut self,
        event_project: u64,
        project: u64,
        errors: &Vec<SkillLoadingError>,
    )
        ensures
            event_project != project ==> *final(self) == *old(self),
            event_project == project ==> {
                &&& *final(self) == (ThreadView {
                    skill_loading_errors: final(self).skill_loading_errors,
                    dismissed_skill_loading_errors: final(self).dismissed_skill_loading_errors,
                    ..*old(self)
                })
                &&& final(self).dismissed_skill_loading_errors@
                    == old(self).dismissed_skill_loading_errors@.intersect(
                    keyed::keys(errors@).to_set(),
                )
                &&& final(self).skill_loading_errors@ == shown_errors(
                    errors@,
                    final(self).dismissed_skill_loading_errors@,
                )
            },
    {
        if event_project != project {
            return;
        }
        self.update_skill_loading_errors(errors);
    }

    /// Hides an error for as long as it occurs.
    pub fn dismiss_skill_loading_error(&mut self, target: SkillLoadingError)
        ensures
            *final(self) == (ThreadView {
                skill_loading_errors: final(self).skill_loading_errors,
                dismissed_skill_loading_errors: final(self).dismissed_skill_loading_errors,
                ..*old(self)
            }),
            final(self).dismissed_skill_loading_errors@
                == old(self).dismissed_skill_loading_errors@.insert(target.key()),
            final(self).skill_loading_errors@ == shown_errors(
                old(self).skill_loading_errors@,
                set![target.key()],
            ),
    {
        let ghost hidden = set![target.key()];
        let mut kept: Vec<SkillLoadingError> = Vec::new();
        let mut i: usize = 0;
        while i < self.skill_loading_errors.len()
            invariant
                i <= self.skill_loading_errors@.len(),
                hidden == set![target.key()],
                kept@ == shown_errors(self.skill_loading_errors@.take(i as int), hidden),
            decreases self.skill_loading_errors@.len() - i,
        {
            let errors = &self.skill_loading_errors;
            assert(errors@.take(i + 1).drop_last() == errors@.take(i as int));
            if !errors[i].same_key(&target) {
                kept.push(errors[i].clone());
            }
            i = i + 1;
        }
        assert(self.skill_loading_errors@.take(i as int) == self.skill_loading_errors@);
        self.skill_loading_errors = kept;
        self.dismissed_skill_loading_errors.insert(target);
    }
}

proof fn lemma_shown(errors: Seq<SkillLoadingError>, dismissed: Set<(Seq<char>, Seq<char>)>, i: int)
    requires
        0 <= i < errors.len(),
        !dismissed.contains(errors[i].key()),
    ensures
        shown_errors(errors, dismissed).contains(errors[i]),
    decreases errors.len(),
{
    let before = shown_errors(errors.drop_last(), dismissed);
    if i == errors.len() - 1 {
        assert(before.push(errors.last())[before.len() as int] == errors[i]);
    } else {
        lemma_shown(errors.drop_last(), dismissed, i);
        assert(errors.drop_last()[i] == errors[i]);
        let j = choose|j: int| 0 <= j < before.len() && before[j] == errors[i];
        if !dismissed.contains(errors.last().key()) {
            assert(before.push(errors.last())[j] == errors[i]);
        }
    }
}

proof fn lemma_not_shown(
    errors: Seq<SkillLoadingError>,
    dismissed: Set<(Seq<char>, Seq<char>)>,
    error: SkillLoadingError,
)
    requires
        dismissed.contains(error.key()),
    ensures
        !shown_errors(errors, dismissed).contains(error),
    decreases errors.len(),
{
    if errors.len() > 0 {
        lemma_not_shown(errors.drop_last(), dismissed, error);
        let before = shown_errors(errors.drop_last(), dismissed);
        if !dismissed.contains(errors.last().key()) {
            let after = before.push(errors.last());
            assert forall|i: int| 0 <= i < after.len() implies after[i] != error by {
                if i < before.len() {
                    assert(before[i] == after[i]);
                    assert(before.contains(before[i]));
                }
            }
        }
    }
}

/// A dismissed error stays hidden for as long as it occurs. Once it did not occur, it is shown
/// when it comes back.
pub proof fn a_dismissal_lasts_while_the_error_occurs(
    dismissed: Set<(Seq<char>, Seq<char>)>,
    first: Seq<SkillLoadingError>,
    second: Seq<SkillLoadingError>,
    i: int,
)
    requires
        0 <= i < second.len(),
        dismissed.contains(second[i].key()),
    ensures
        ({
            let once = dismissed.intersect(keyed::keys(first).to_set());
            let twice = once.intersect(keyed::keys(second).to_set());
            &&& keyed::keys(first).contains(second[i].key()) ==> !shown_errors(
                second,
                twice,
            ).contains(second[i])
            &&& !keyed::keys(first).contains(second[i].key()) ==> shown_errors(
                second,
                twice,
            ).contains(second[i])
        }),
{
    let once = dismissed.intersect(keyed::keys(first).to_set());
    let twice = once.intersect(keyed::keys(second).to_set());
    assert(keyed::keys(second)[i] == second[i].key());
    if keyed::keys(first).contains(second[i].key()) {
        lemma_not_shown(second, twice, second[i]);
    } else {
        lemma_shown(second, twice, i);
    }
}

/// The errors that are shown are taken from the errors one by one, in order: an error is shown
/// exactly where it is not dismissed. Errors are told apart by their path and their message.
pub proof fn errors_are_shown_one_by_one(
    first: Seq<SkillLoadingError>,
    second: Seq<SkillLoadingError>,
    error: SkillLoadingError,
    dismissed: Set<(Seq<char>, Seq<char>)>,
)
    ensures
        shown_errors(first + second, dismissed) == shown_errors(first, dismissed) + shown_errors(
            second,
            dismissed,
        ),
        shown_errors(seq![error], dismissed) == (if dismissed.contains(
            (error.path@, error.message@),
        ) {
            seq![]
        } else {
            seq![error]
        }),
    decreases second.len(),
{
    reveal_with_fuel(shown_errors, 3);
    assert(seq![error].drop_last() =~= seq![]);
    assert(Seq::<SkillLoadingError>::empty().push(error) =~= seq![error]);
    if second.len() > 0 {
        errors_are_shown_one_by_one(first, second.drop_last(), error, dismissed);
        assert((first + second).drop_last() =~= first + second.drop_last());
        assert((first + second).last() == second.last());
        assert(shown_errors(first + second, dismissed) =~= shown_errors(first, dismissed)
            + shown_errors(second, dismissed));
    } else {
        assert(first + second =~= first);
        assert(shown_errors(first, dismissed) + shown_errors(second, dismissed)
            =~= shown_errors(first, dismissed));
    }
}

} // verus!
