//! The user's rating of a thread, and comments on it.

use crate::text;
use vstd::prelude::*;
use vstd::string::*;

verus! {

/// A rating of a thread.
#[derive(Clone, Copy, PartialEq, Eq, Structural, Debug)]
pub enum ThreadFeedback {
    Positive,
    Negative,
}

/// The rating so far, and the editor for comments on it.
pub struct ThreadFeedbackState {
    pub feedback: Option<ThreadFeedback>,
    /// The text in the editor for comments, while it is open.
    pub comments_editor: Option<String>,
}

/// Who rates which thread.
pub struct FeedbackContext {
    pub organization_id: Option<String>,
    pub agent_telemetry_id: String,
    pub session_id: String,
    pub parent_session_id: Option<String>,
}

/// A rating, as it is submitted together with the thread.
pub struct FeedbackBody {
    pub organization_id: Option<String>,
    pub agent: String,
    pub session_id: String,
    pub parent_session_id: Option<String>,
    pub rating: &'static str,
}

/// Comments, as they are submitted together with the thread.
pub struct FeedbackCommentsBody {
    pub organization_id: Option<String>,
    pub agent: String,
    pub session_id: String,
    pub comments: String,
}

/// The word for a rating.
pub open spec fn rating_word(feedback: ThreadFeedback) -> Seq<char> {
    match feedback {
        ThreadFeedback::Positive => "positive"@,
        ThreadFeedback::Negative => "negative"@,
    }
}

/// Whether there are comments to submit.
pub open spec fn has_comments(state: ThreadFeedbackState) -> bool {
    match state.comments_editor {
        Some(comments) => !text::blank(comments@),
        None => false,
    }
}

impl Default for ThreadFeedbackState {
    fn default() -> (r: Self)
        ensures
            r == (ThreadFeedbackState { feedback: None, comments_editor: None }),
    {
        ThreadFeedbackState { feedback: None, comments_editor: None }
    }
}

impl ThreadFeedbackState {
    /// Takes a rating. Nothing happens without telemetry, or where the rating is the
    /// same as before. A bad rating opens an empty editor for comments, a good one closes
    /// it.
    pub fn submit(
        &mut self,
        has_telemetry: bool,
        feedback: ThreadFeedback,
        context: &FeedbackContext,
    ) -> (r: Option<FeedbackBody>)
        ensures
            r is Some <==> has_telemetry && old(self).feedback != Some(feedback),
            r is None ==> *final(self) == *old(self),
            r matches Some(body) ==> {
                &&& final(self).feedback == Some(feedback)
                &&& text::optional_view(final(self).comments_editor) == (match feedback {
                    ThreadFeedback::Positive => None,
                    ThreadFeedback::Negative => Some(Seq::<char>::empty()),
                })
                &&& body.organization_id == context.organization_id
                &&& body.agent == context.agent_telemetry_id
                &&& body.session_id == context.session_id
                &&& body.parent_session_id == context.parent_session_id
                &&& body.rating@ == rating_word(feedback)
            },
    {
        if !has_telemetry {
            return None;
        }
        let is_repeated = match self.feedback {
            Some(f) => f == feedback,
            None => false,
        };
        if is_repeated {
            return None;
        }
        self.feedback = Some(feedback);
        self.comments_editor = match feedback {
            ThreadFeedback::Positive => None,
            ThreadFeedback::Negative => Some(String::new()),
        };
        let rating = match feedback {
            ThreadFeedback::Positive => "positive",
            ThreadFeedback::Negative => "negative",
        };
        Some(
            FeedbackBody {
                organization_id: text::copy_option(&context.organization_id),
                agent: context.agent_telemetry_id.clone(),
                session_id: context.session_id.clone(),
                parent_session_id: text::copy_option(&context.parent_session_id),
                rating,
            },
        )
    }

    /// Submits the comments and closes their editor. Nothing happens without telemetry, or
    /// where the comments are blank.
    pub fn submit_comments(&mut self, has_telemetry: bool, context: &FeedbackContext) -> (r: Option<
        FeedbackCommentsBody,
    >)
        ensures
            r is Some <==> has_telemetry && has_comments(*old(self)),
            r is None ==> *final(self) == *old(self),
            r matches Some(body) ==> {
                &&& *final(self) == (ThreadFeedbackState {
                    comments_editor: None,
                    ..*old(self)
                })
                &&& body.organization_id == context.organization_id
                &&& body.agent == context.agent_telemetry_id
                &&& body.session_id == context.session_id
                &&& Some(body.comments) == old(self).comments_editor
            },
    {
        if !has_telemetry {
            return None;
        }
        let comments = match &self.comments_editor {
            Some(comments) => {
                if text::is_blank(comments.as_str()) {
                    return None;
                }
                comments.clone()
            },
            None => {
                return None;
            },
        };
        self.comments_editor = None;
        Some(
            FeedbackCommentsBody {
                organization_id: text::copy_option(&context.organization_id),
                agent: context.agent_telemetry_id.clone(),
                session_id: context.session_id.clone(),
                comments,
            },
        )
    }

    /// Forgets the rating and the comments.
    pub fn clear(&mut self)
        ensures
            *final(self) == (ThreadFeedbackState { feedback: None, comments_editor: None }),
    {
        *self = ThreadFeedbackState::default();
    }

    /// Closes the editor for comments and keeps the rating.
    pub fn dismiss_comments(&mut self)
        ensures
            *final(self) == (ThreadFeedbackState { comments_editor: None, ..*old(self) }),
    {
        self.comments_editor = None;
    }
}

/// A good rating is told from a bad one by its word.
pub proof fn ratings_have_their_words(feedback: ThreadFeedback)
    ensures
        rating_word(feedback) == "positive"@ <==> feedback == ThreadFeedback::Positive,
        rating_word(feedback) == "negative"@ <==> feedback == ThreadFeedback::Negative,
{
    reveal_strlit("positive");
    reveal_strlit("negative");
    assert("positive"@[0] == 'p');
    assert("negative"@[0] == 'n');
}

/// There are comments exactly where the editor is open and holds more than white space.
pub proof fn comments_hold_more_than_white_space(state: ThreadFeedbackState, i: int)
    ensures
        state.comments_editor is None ==> !has_comments(state),
        state.comments_editor matches Some(comments) ==> {
            &&& has_comments(state) <==> text::trimmed(comments@).len() > 0
            &&& 0 <= i < comments@.len() && !text::white_space(comments@[i]) ==> has_comments(
                state,
            )
            &&& comments@.len() == 0 ==> !has_comments(state)
        },
{
    if let Some(comments) = state.comments_editor {
        text::blank_text_trims_to_nothing(comments@);
        if 0 <= i < comments@.len() && !text::white_space(comments@[i]) {
            assert(!text::blank(comments@));
        }
    }
}

} // verus!
