//! Following the agent through the files it works on.

use crate::model::ThreadStatus;
use crate::text;
use crate::thread_view::ThreadView;
use vstd::prelude::*;
use vstd::string::*;

verus! {

/// What the workspace is told when following is toggled.
#[derive(Clone, Copy, PartialEq, Eq, Structural, Debug)]
pub enum FollowAction {
    Nothing,
    Follow,
    Unfollow,
}

/// Whether the view follows the agent: while it generates, what the workspace does; else
/// what the user asked for, unless that was for the last response only.
pub open spec fn follows(view: ThreadView, status: ThreadStatus, workspace_follows: bool) -> bool {
    if status == ThreadStatus::Generating {
        workspace_follows
    } else {
        view.should_be_following && !view.follow_only_until_response_ends
    }
}

/// The view after following was toggled.
pub open spec fn toggled_following(
    view: ThreadView,
    status: ThreadStatus,
    workspace_follows: bool,
) -> ThreadView {
    let following = follows(view, status, workspace_follows);
    ThreadView {
        should_be_following: !following,
        follow_only_until_response_ends: !following,
        ..view
    }
}

/// The view after the agent has stopped generating.
pub open spec fn transient_follow_cleared(view: ThreadView) -> ThreadView {
    if view.follow_only_until_response_ends {
        ThreadView {
            follow_only_until_response_ends: false,
            should_be_following: false,
            ..view
        }
    } else {
        view
    }
}

/// The button that toggles following.
pub struct FollowToggle {
    pub is_toggled: bool,
    pub tooltip: String,
    /// A note below the tooltip.
    pub tooltip_meta: Option<&'static str>,
}

/// The name of the agent in labels.
pub open spec fn display_name(agent_id: Seq<char>) -> Seq<char> {
    if agent_id == "grok"@ {
        "Grok"@
    } else {
        agent_id
    }
}

/// What the button that toggles following shows.
pub open spec fn follow_toggle_shows(
    toggle: FollowToggle,
    view: ThreadView,
    status: ThreadStatus,
    workspace_follows: bool,
    native_agent_id: Seq<char>,
) -> bool {
    let following = follows(view, status, workspace_follows);
    let article = if view.agent_id@ == native_agent_id {
        "the "@
    } else {
        ""@
    };
    &&& toggle.is_toggled == following
    &&& toggle.tooltip@ == (if following {
        "Stop Following "@ + article + display_name(view.agent_id@)
    } else {
        "Follow "@ + article + display_name(view.agent_id@) + " (this response)"@
    })
    &&& match toggle.tooltip_meta {
        Some(meta) => !following && meta@
            == "Track the agent's location for this response only (auto-stops when done, prevents view jumping while you type)."@,
        None => following,
    }
}

impl ThreadView {
    /// Whether the view follows the agent.
    pub fn is_following(&self, status: ThreadStatus, workspace_follows: bool) -> (r: bool)
        ensures
            r == follows(*self, status, workspace_follows),
    {
        if status != ThreadStatus::Generating && self.follow_only_until_response_ends {
            return false;
        }
        match status {
            ThreadStatus::Generating => workspace_follows,
            ThreadStatus::Idle => self.should_be_following,
        }
    }

    /// Ends a following that was for the last response only; says whether there was one.
    pub fn clear_transient_follow_if_needed(&mut self) -> (changed: bool)
        ensures
            *final(self) == transient_follow_cleared(*old(self)),
            changed == old(self).follow_only_until_response_ends,
    {
        if self.follow_only_until_response_ends {
            self.follow_only_until_response_ends = false;
            self.should_be_following = false;
            true
        } else {
            false
        }
    }

    /// Starts or stops following. The workspace is told while the agent generates.
    pub fn toggle_following(&mut self, status: ThreadStatus, workspace_follows: bool) -> (r:
        FollowAction)
        ensures
            *final(self) == toggled_following(*old(self), status, workspace_follows),
            r == (if status != ThreadStatus::Generating {
                FollowAction::Nothing
            } else if workspace_follows {
                FollowAction::Unfollow
            } else {
                FollowAction::Follow
            }),
    {
        let following = self.is_following(status, workspace_follows);
        self.should_be_following = !following;
        self.follow_only_until_response_ends = self.should_be_following;
        if status == ThreadStatus::Generating {
            if following {
                FollowAction::Unfollow
            } else {
                FollowAction::Follow
            }
        } else {
            FollowAction::Nothing
        }
    }

    /// The button that toggles following. Its label says that following lasts for the
    /// current response.
    pub fn render_follow_toggle(
        &self,
        status: ThreadStatus,
        workspace_follows: bool,
        native_agent_id: &str,
    ) -> (r: FollowToggle)
        ensures
            follow_toggle_shows(r, *self, status, workspace_follows, native_agent_id@),
    {
        let following = self.is_following(status, workspace_follows);
        let name: &str = if text::same_text(self.agent_id.as_str(), "grok") {
            "Grok"
        } else {
            self.agent_id.as_str()
        };
        let article: &str = if text::same_text(self.agent_id.as_str(), native_agent_id) {
            "the "
        } else {
            ""
        };
        if following {
            FollowToggle {
                is_toggled: true,
                tooltip: text::concat3("Stop Following ", article, name),
                tooltip_meta: None,
            }
        } else {
            let mut tooltip = text::concat3("Follow ", article, name);
            tooltip.append(" (this response)");
            FollowToggle {
                is_toggled: false,
                tooltip,
                tooltip_meta: Some(
                    "Track the agent's location for this response only (auto-stops when done, prevents view jumping while you type).",
                ),
            }
        }
    }
}

/// A view that was toggled, on or off, does not follow the agent once it has stopped
/// generating, whether or not the end of the response was noticed.
pub proof fn following_ends_with_the_response(
    view: ThreadView,
    status: ThreadStatus,
    workspace_follows: bool,
    later: bool,
)
    ensures
        ({
            let toggled = toggled_following(view, status, workspace_follows);
            &&& !follows(toggled, ThreadStatus::Idle, later)
            &&& !follows(transient_follow_cleared(toggled), ThreadStatus::Idle, later)
            &&& !transient_follow_cleared(toggled).should_be_following
        }),
{
}

/// While the agent generates, the view follows exactly where the workspace does. After that it
/// follows where the user asked for more than the last response.
pub proof fn following_goes_by_the_workspace_while_generating(
    view: ThreadView,
    workspace_follows: bool,
)
    ensures
        follows(view, ThreadStatus::Generating, workspace_follows) == workspace_follows,
        follows(view, ThreadStatus::Idle, workspace_follows) ==> view.should_be_following,
        view.follow_only_until_response_ends ==> !follows(
            view,
            ThreadStatus::Idle,
            workspace_follows,
        ),
        view.should_be_following && !view.follow_only_until_response_ends ==> follows(
            view,
            ThreadStatus::Idle,
            workspace_follows,
        ),
{
}

/// Toggling turns what the user asked for into its opposite, for the current response only, and
/// changes nothing else of the view.
pub proof fn toggling_turns_following_round(
    view: ThreadView,
    status: ThreadStatus,
    workspace_follows: bool,
)
    ensures
        ({
            let toggled = toggled_following(view, status, workspace_follows);
            &&& toggled.should_be_following == !follows(view, status, workspace_follows)
            &&& toggled.follow_only_until_response_ends == toggled.should_be_following
            &&& view == (ThreadView {
                should_be_following: view.should_be_following,
                follow_only_until_response_ends: view.follow_only_until_response_ends,
                ..toggled
            })
        }),
{
}

/// The end of a response ends a following that was for it only. A lasting one goes on, and
/// nothing else of the view changes.
pub proof fn only_a_transient_following_is_cleared(view: ThreadView)
    ensures
        !view.follow_only_until_response_ends ==> transient_follow_cleared(view) == view,
        view.follow_only_until_response_ends ==> {
            let cleared = transient_follow_cleared(view);
            &&& !cleared.follow_only_until_response_ends
            &&& !cleared.should_be_following
            &&& view == (ThreadView {
                should_be_following: view.should_be_following,
                follow_only_until_response_ends: true,
                ..cleared
            })
        },
{
}

/// The button offers to follow where the view does not follow, for this response, and to stop
/// where it does. It names the agent, the built-in one with an article.
pub proof fn the_button_offers_the_opposite(
    toggle: FollowToggle,
    view: ThreadView,
    status: ThreadStatus,
    workspace_follows: bool,
    native_agent_id: Seq<char>,
)
    requires
        follow_toggle_shows(toggle, view, status, workspace_follows, native_agent_id),
    ensures
        toggle.is_toggled == follows(view, status, workspace_follows),
        toggle.tooltip_meta is Some <==> !toggle.is_toggled,
        view.agent_id@ != native_agent_id && view.agent_id@ != "grok"@ ==> toggle.tooltip@ == (
        if toggle.is_toggled {
            "Stop Following "@ + view.agent_id@
        } else {
            "Follow "@ + view.agent_id@ + " (this response)"@
        }),
        view.agent_id@ == native_agent_id && view.agent_id@ != "grok"@ ==> toggle.tooltip@ == (
        if toggle.is_toggled {
            "Stop Following "@ + "the "@ + view.agent_id@
        } else {
            "Follow "@ + "the "@ + view.agent_id@ + " (this response)"@
        }),
        view.agent_id@ == "grok"@ && view.agent_id@ != native_agent_id && toggle.is_toggled
            ==> toggle.tooltip@ == "Stop Following "@ + "Grok"@,
        display_name("grok"@) == "Grok"@,
        view.agent_id@ != "grok"@ ==> display_name(view.agent_id@) == view.agent_id@,
{
    reveal_strlit("");
    let stop = "Stop Following "@;
    let start = "Follow "@;
    assert(stop + ""@ =~= stop);
    assert(start + ""@ =~= start);
}

/// The toggle says what following means, while the agent is not followed.
pub proof fn the_toggle_says_what_following_means(
    toggle: FollowToggle,
    view: ThreadView,
    status: ThreadStatus,
    workspace_follows: bool,
    native_agent_id: Seq<char>,
)
    requires
        follow_toggle_shows(toggle, view, status, workspace_follows, native_agent_id),
    ensures
        toggle.tooltip_meta is Some <==> !toggle.is_toggled,
        toggle.tooltip_meta matches Some(words) ==> words@
            == "Track the agent's location for this response only (auto-stops when done, prevents view jumping while you type)."@,
{
}

} // verus!
