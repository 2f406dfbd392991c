//! Callouts above the message editor: errors, retries, limits and notices.

use crate::keyed::Keyed;
use crate::model::{IconName, Severity, TokenUsageRatio};
use crate::text;
use crate::thread_view::ThreadView;
use vstd::prelude::*;
use vstd::string::*;

verus! {

/// Why the agent stopped.
pub enum ThreadError {
    PaymentRequired,
    Refusal,
    AuthenticationRequired(String),
    RateLimitExceeded { provider: String },
    ServerOverloaded { provider: String },
    PromptTooLarge,
    NoApiKey { provider: String },
    StreamError { provider: String },
    InvalidApiKey { provider: String },
    PermissionDenied { provider: String },
    RequestFailed,
    MaxOutputTokens,
    NoModelSelected,
    ApiError { provider: String },
    Other { acp_error_code: Option<String>, message: String },
}

/// What is reported of an error.
pub struct ErrorTelemetry {
    pub kind: &'static str,
    pub acp_error_code: Option<String>,
    pub message: String,
}

/// The sentence about a refusal by the model or agent of this name.
pub open spec fn refusal_message(name: Seq<char>) -> Seq<char> {
    name
        + " refused to respond to this prompt. This can happen when a model believes the prompt violates its content policy or safety guidelines, so rephrasing it can sometimes address the issue."@
}

/// The kind of an error, as it is reported.
pub open spec fn error_kind(error: ThreadError) -> Seq<char> {
    match error {
        ThreadError::PaymentRequired => "payment_required"@,
        ThreadError::Refusal => "refusal"@,
        ThreadError::AuthenticationRequired(_) => "authentication_required"@,
        ThreadError::RateLimitExceeded { .. } => "rate_limit_exceeded"@,
        ThreadError::ServerOverloaded { .. } => "server_overloaded"@,
        ThreadError::PromptTooLarge => "prompt_too_large"@,
        ThreadError::NoApiKey { .. } => "no_api_key"@,
        ThreadError::StreamError { .. } => "stream_error"@,
        ThreadError::InvalidApiKey { .. } => "invalid_api_key"@,
        ThreadError::PermissionDenied { .. } => "permission_denied"@,
        ThreadError::RequestFailed => "request_failed"@,
        ThreadError::MaxOutputTokens => "max_output_tokens"@,
        ThreadError::NoModelSelected => "no_model_selected"@,
        ThreadError::ApiError { .. } => "api_error"@,
        ThreadError::Other { .. } => "other"@,
    }
}

/// The message of an error, as it is reported.
pub open spec fn reported_message(error: ThreadError, name: Seq<char>) -> Seq<char> {
    match error {
        ThreadError::PaymentRequired =>
            "You reached your free usage limit. Upgrade to Zed Pro for more prompts."@,
        ThreadError::Refusal => refusal_message(name),
        ThreadError::AuthenticationRequired(message) => message@,
        ThreadError::RateLimitExceeded { provider } => provider@ + "'s rate limit was reached."@,
        ThreadError::ServerOverloaded { provider } => provider@
            + "'s servers are temporarily unavailable."@,
        ThreadError::PromptTooLarge => "Context too large for the model's context window."@,
        ThreadError::NoApiKey { provider } => "No API key configured for "@ + provider@ + "."@,
        ThreadError::StreamError { provider } => "Connection to "@ + provider@
            + "'s API was interrupted."@,
        ThreadError::InvalidApiKey { provider } => "Invalid or expired API key for "@ + provider@
            + "."@,
        ThreadError::PermissionDenied { provider } => provider@
            + "'s API rejected the request due to insufficient permissions."@,
        ThreadError::RequestFailed => "Request could not be completed after multiple attempts."@,
        ThreadError::MaxOutputTokens => "Model reached its maximum output length."@,
        ThreadError::NoModelSelected => "No model selected."@,
        ThreadError::ApiError { provider } => provider@ + "'s API returned an unexpected error."@,
        ThreadError::Other { message, .. } => message@,
    }
}

fn refusal_text(name: &str) -> (r: String)
    ensures
        r@ == refusal_message(name@),
{
    text::concat2(
        name,
        " refused to respond to this prompt. This can happen when a model believes the prompt violates its content policy or safety guidelines, so rephrasing it can sometimes address the issue.",
    )
}

/// What is reported of an error; `name` is the name of the model or agent.
pub fn error_telemetry(error: &ThreadError, name: &str) -> (r: ErrorTelemetry)
    ensures
        r.kind@ == error_kind(*error),
        r.acp_error_code == (match *error {
            ThreadError::Other { acp_error_code, .. } => acp_error_code,
            _ => None,
        }),
        r.message@ == reported_message(*error, name@),
{
    let mut acp_error_code: Option<String> = None;
    let (kind, message): (&'static str, String) = match error {
        ThreadError::PaymentRequired => (
            "payment_required",
            "You reached your free usage limit. Upgrade to Zed Pro for more prompts.".to_owned(),
        ),
        ThreadError::Refusal => ("refusal", refusal_text(name)),
        ThreadError::AuthenticationRequired(message) => (
            "authentication_required",
            message.clone(),
        ),
        ThreadError::RateLimitExceeded { provider } => (
            "rate_limit_exceeded",
            text::concat2(provider.as_str(), "'s rate limit was reached."),
        ),
        ThreadError::ServerOverloaded { provider } => (
            "server_overloaded",
            text::concat2(provider.as_str(), "'s servers are temporarily unavailable."),
        ),
        ThreadError::PromptTooLarge => (
            "prompt_too_large",
            "Context too large for the model's context window.".to_owned(),
        ),
        ThreadError::NoApiKey { provider } => (
            "no_api_key",
            text::concat3("No API key configured for ", provider.as_str(), "."),
        ),
        ThreadError::StreamError { provider } => (
            "stream_error",
            text::concat3("Connection to ", provider.as_str(), "'s API was interrupted."),
        ),
        ThreadError::InvalidApiKey { provider } => (
            "invalid_api_key",
            text::concat3("Invalid or expired API key for ", provider.as_str(), "."),
        ),
        ThreadError::PermissionDenied { provider } => (
            "permission_denied",
            text::concat2(
                provider.as_str(),
                "'s API rejected the request due to insufficient permissions.",
            ),
        ),
        ThreadError::RequestFailed => (
            "request_failed",
            "Request could not be completed after multiple attempts.".to_owned(),
        ),
        ThreadError::MaxOutputTokens => (
            "max_output_tokens",
            "Model reached its maximum output length.".to_owned(),
        ),
        ThreadError::NoModelSelected => ("no_model_selected", "No model selected.".to_owned()),
        ThreadError::ApiError { provider } => (
            "api_error",
            text::concat2(provider.as_str(), "'s API returned an unexpected error."),
        ),
        ThreadError::Other { acp_error_code: code, message } => {
            acp_error_code = text::copy_option(code);
            ("other", message.clone())
        },
    };
    ErrorTelemetry { kind, acp_error_code, message }
}

/// What a callout offers besides copying its message and dismissing it.
#[derive(Clone, Copy, PartialEq, Eq, Structural, Debug)]
pub enum CalloutAction {
    /// A button that retries the generation.
    Retry,
    /// An icon that retries the generation.
    RetryIcon,
    NewThread,
    Upgrade,
    Authenticate,
    OpenInWsl,
    OpenFile,
    StartNewThread,
}

/// A callout.
pub struct Callout {
    pub severity: Severity,
    pub icon: IconName,
    pub title: String,
    pub description: String,
    pub action: Option<CalloutAction>,
    /// The text that the copy button copies, where there is one.
    pub copy_text: Option<String>,
    pub is_dismissible: bool,
}

/// What a callout shows.
pub open spec fn callout_shows(
    callout: Callout,
    severity: Severity,
    icon: IconName,
    title: Seq<char>,
    description: Seq<char>,
    action: Option<CalloutAction>,
    copy_text: Option<Seq<char>>,
    is_dismissible: bool,
) -> bool {
    &&& callout.severity == severity
    &&& callout.icon == icon
    &&& callout.title@ == title
    &&& callout.description@ == description
    &&& callout.action == action
    &&& text::optional_view(callout.copy_text) == copy_text
    &&& callout.is_dismissible == is_dismissible
}

/// The title of the callout for an error.
pub open spec fn error_title(error: ThreadError) -> Seq<char> {
    match error {
        ThreadError::PaymentRequired => "Free Usage Exceeded"@,
        ThreadError::Refusal => "Request Refused"@,
        ThreadError::AuthenticationRequired(_) => "Authentication Required"@,
        ThreadError::RateLimitExceeded { .. } => "Rate Limit Reached"@,
        ThreadError::ServerOverloaded { .. } => "Provider Unavailable"@,
        ThreadError::PromptTooLarge => "Context Too Large"@,
        ThreadError::NoApiKey { .. } => "API Key Missing"@,
        ThreadError::StreamError { .. } => "Connection Interrupted"@,
        ThreadError::InvalidApiKey { .. } => "Invalid API Key"@,
        ThreadError::PermissionDenied { .. } => "Permission Denied"@,
        ThreadError::RequestFailed => "Request Failed"@,
        ThreadError::MaxOutputTokens => "Output Limit Reached"@,
        ThreadError::NoModelSelected => "No Model Selected"@,
        ThreadError::ApiError { .. } => "API Error"@,
        ThreadError::Other { .. } => "An Error Happened"@,
    }
}

/// The message of the callout for an error.
pub open spec fn error_message(error: ThreadError, name: Seq<char>) -> Seq<char> {
    match error {
        ThreadError::PaymentRequired =>
            "You reached your free usage limit. Upgrade to Zed Pro for more prompts."@,
        ThreadError::Refusal => refusal_message(name),
        ThreadError::AuthenticationRequired(message) => message@,
        ThreadError::RateLimitExceeded { provider } => provider@
            + "'s rate limit was reached. Zed will retry automatically. You can also wait a moment and try again."@,
        ThreadError::ServerOverloaded { provider } => provider@
            + "'s servers are temporarily unavailable. Zed will retry automatically. If the problem persists, check the provider's status page."@,
        ThreadError::PromptTooLarge =>
            "This conversation is too long for the model's context window. Start a new thread or remove some attached files to continue."@,
        ThreadError::NoApiKey { provider } => "No API key is configured for "@ + provider@
            + ". Add your key via the Agent Panel settings to continue."@,
        ThreadError::StreamError { provider } => "The connection to "@ + provider@
            + "'s API was interrupted. Zed will retry automatically. If the problem persists, check your network connection."@,
        ThreadError::InvalidApiKey { provider } => "The API key for "@ + provider@
            + " is invalid or has expired. Update your key via the Agent Panel settings to continue."@,
        ThreadError::PermissionDenied { provider } => provider@
            + "'s API rejected the request due to insufficient permissions. Check that your API key has access to this model."@,
        ThreadError::RequestFailed =>
            "The request could not be completed after multiple attempts. Try again in a moment."@,
        ThreadError::MaxOutputTokens =>
            "The model stopped because it reached its maximum output length. You can ask it to continue where it left off."@,
        ThreadError::NoModelSelected =>
            "Select a model from the model picker below to get started."@,
        ThreadError::ApiError { provider } => provider@
            + "'s API returned an unexpected error. If the problem persists, try switching models or restarting Zed."@,
        ThreadError::Other { message, .. } => message@,
    }
}

/// Whether the callout for an error offers to retry, where the thread can.
pub open spec fn offers_retry(error: ThreadError) -> bool {
    match error {
        ThreadError::RateLimitExceeded { .. } => true,
        ThreadError::ServerOverloaded { .. } => true,
        ThreadError::StreamError { .. } => true,
        ThreadError::RequestFailed => true,
        ThreadError::ApiError { .. } => true,
        _ => false,
    }
}

/// What the callout for an error offers.
pub open spec fn error_action(error: ThreadError, can_retry: bool) -> Option<CalloutAction> {
    match error {
        ThreadError::PaymentRequired => Some(CalloutAction::Upgrade),
        ThreadError::AuthenticationRequired(_) => Some(CalloutAction::Authenticate),
        ThreadError::PromptTooLarge => Some(CalloutAction::NewThread),
        ThreadError::Other { .. } => if can_retry {
            Some(CalloutAction::RetryIcon)
        } else {
            None
        },
        _ => if offers_retry(error) && can_retry {
            Some(CalloutAction::Retry)
        } else {
            None
        },
    }
}

/// Whether the message of an error can be copied.
pub open spec fn offers_copy(error: ThreadError) -> bool {
    match error {
        ThreadError::InvalidApiKey { .. } => false,
        ThreadError::PermissionDenied { .. } => false,
        ThreadError::RequestFailed => false,
        ThreadError::MaxOutputTokens => false,
        ThreadError::NoModelSelected => false,
        _ => true,
    }
}

/// The callout for an error without actions of its own: it offers to retry where that is
/// asked for and possible, and to copy the message where that is asked for.
pub fn render_error_callout(
    title: &'static str,
    message: String,
    show_retry: bool,
    show_copy: bool,
    can_retry: bool,
) -> (r: Callout)
    ensures
        callout_shows(
            r,
            Severity::Error,
            IconName::XCircle,
            title@,
            message@,
            if show_retry && can_retry {
                Some(CalloutAction::Retry)
            } else {
                None
            },
            if show_copy {
                Some(message@)
            } else {
                None
            },
            true,
        ),
{
    let can_resume = show_retry && can_retry;
    let action = if can_resume {
        Some(CalloutAction::Retry)
    } else {
        None
    };
    let copy_text = if show_copy {
        Some(message.clone())
    } else {
        None
    };
    Callout {
        severity: Severity::Error,
        icon: IconName::XCircle,
        title: title.to_owned(),
        description: message,
        action,
        copy_text,
        is_dismissible: true,
    }
}

fn error_callout_with(title: &'static str, message: String, action: Option<CalloutAction>) -> (r:
    Callout)
    ensures
        callout_shows(
            r,
            Severity::Error,
            IconName::XCircle,
            title@,
            message@,
            action,
            Some(message@),
            true,
        ),
{
    let copy_text = Some(message.clone());
    Callout {
        severity: Severity::Error,
        icon: IconName::XCircle,
        title: title.to_owned(),
        description: message,
        action,
        copy_text,
        is_dismissible: true,
    }
}

/// The callout for an error; `name` is the name of the model or agent.
pub fn render_thread_error_callout(error: &ThreadError, can_retry: bool, name: &str) -> (r: Callout)
    ensures
        callout_shows(
            r,
            Severity::Error,
            IconName::XCircle,
            error_title(*error),
            error_message(*error, name@),
            error_action(*error, can_retry),
            if offers_copy(*error) {
                Some(error_message(*error, name@))
            } else {
                None
            },
            true,
        ),
{
    match error {
        ThreadError::Other { message, .. } => {
            let action = if can_retry {
                Some(CalloutAction::RetryIcon)
            } else {
                None
            };
            error_callout_with("An Error Happened", message.clone(), action)
        },
        ThreadError::Refusal => error_callout_with("Request Refused", refusal_text(name), None),
        ThreadError::AuthenticationRequired(message) => error_callout_with(
            "Authentication Required",
            message.clone(),
            Some(CalloutAction::Authenticate),
        ),
        ThreadError::PaymentRequired => error_callout_with(
            "Free Usage Exceeded",
            "You reached your free usage limit. Upgrade to Zed Pro for more prompts.".to_owned(),
            Some(CalloutAction::Upgrade),
        ),
        ThreadError::PromptTooLarge => error_callout_with(
            "Context Too Large",
            "This conversation is too long for the model's context window. Start a new thread or remove some attached files to continue.".to_owned(),
            Some(CalloutAction::NewThread),
        ),
        ThreadError::RateLimitExceeded { provider } => render_error_callout(
            "Rate Limit Reached",
            text::concat2(
                provider.as_str(),
                "'s rate limit was reached. Zed will retry automatically. You can also wait a moment and try again.",
            ),
            true,
            true,
            can_retry,
        ),
        ThreadError::ServerOverloaded { provider } => render_error_callout(
            "Provider Unavailable",
            text::concat2(
                provider.as_str(),
                "'s servers are temporarily unavailable. Zed will retry automatically. If the problem persists, check the provider's status page.",
            ),
            true,
            true,
            can_retry,
        ),
        ThreadError::NoApiKey { provider } => render_error_callout(
            "API Key Missing",
            text::concat3(
                "No API key is configured for ",
                provider.as_str(),
                ". Add your key via the Agent Panel settings to continue.",
            ),
            false,
            true,
            can_retry,
        ),
        ThreadError::StreamError { provider } => render_error_callout(
            "Connection Interrupted",
            text::concat3(
                "The connection to ",
                provider.as_str(),
                "'s API was interrupted. Zed will retry automatically. If the problem persists, check your network connection.",
            ),
            true,
            true,
            can_retry,
        ),
        ThreadError::InvalidApiKey { provider } => render_error_callout(
            "Invalid API Key",
            text::concat3(
                "The API key for ",
                provider.as_str(),
                " is invalid or has expired. Update your key via the Agent Panel settings to continue.",
            ),
            false,
            false,
            can_retry,
        ),
        ThreadError::PermissionDenied { provider } => render_error_callout(
            "Permission Denied",
            text::concat2(
                provider.as_str(),
                "'s API rejected the request due to insufficient permissions. Check that your API key has access to this model.",
            ),
            false,
            false,
            can_retry,
        ),
        ThreadError::RequestFailed => render_error_callout(
            "Request Failed",
            "The request could not be completed after multiple attempts. Try again in a moment.".to_owned(),
            true,
            false,
            can_retry,
        ),
        ThreadError::MaxOutputTokens => render_error_callout(
            "Output Limit Reached",
            "The model stopped because it reached its maximum output length. You can ask it to continue where it left off.".to_owned(),
            false,
            false,
            can_retry,
        ),
        ThreadError::NoModelSelected => render_error_callout(
            "No Model Selected",
            "Select a model from the model picker below to get started.".to_owned(),
            false,
            false,
            can_retry,
        ),
        ThreadError::ApiError { provider } => render_error_callout(
            "API Error",
            text::concat2(
                provider.as_str(),
                "'s API returned an unexpected error. If the problem persists, try switching models or restarting Zed.",
            ),
            true,
            true,
            can_retry,
        ),
    }
}

/// The number of nanoseconds in a second.
pub const NANOS_PER_SEC: u64 = 1_000_000_000;

/// The attempt to get an answer that is under way. The times are in nanoseconds of one clock.
pub struct RetryStatus {
    pub last_error: String,
    pub attempt: usize,
    pub max_attempts: usize,
    pub started_at: u64,
    /// How long to wait for the next attempt.
    pub duration: u64,
}

/// The time until the next attempt, in nanoseconds.
pub open spec fn time_to_next_attempt(state: RetryStatus, now: u64) -> nat {
    let waited = if now > state.started_at {
        now - state.started_at
    } else {
        0
    };
    if state.duration > waited {
        (state.duration - waited) as nat
    } else {
        0
    }
}

/// The sentence about the next attempt.
pub open spec fn retry_message(state: RetryStatus, secs: nat) -> Seq<char> {
    let wait = if secs == 1 {
        "Retrying. Next attempt in 1 second"@
    } else {
        "Retrying. Next attempt in "@ + text::decimal(secs) + " seconds"@
    };
    if state.max_attempts == 1 {
        wait + "."@
    } else {
        wait + " (Attempt "@ + text::decimal(state.attempt as nat) + " of "@ + text::decimal(
            state.max_attempts as nat,
        ) + ")."@
    }
}

/// The callout for a retry, once the time until the next attempt is known.
fn retry_callout(state: &RetryStatus, next_attempt_in: u64) -> (r: Callout)
    ensures
        callout_shows(
            r,
            Severity::Warning,
            IconName::Warning,
            state.last_error@,
            retry_message(*state, (next_attempt_in / NANOS_PER_SEC) as nat + 1),
            None,
            None,
            false,
        ),
{
    let secs: u64 = next_attempt_in / NANOS_PER_SEC + 1;
    let mut message: String = if secs == 1 {
        "Retrying. Next attempt in 1 second".to_owned()
    } else {
        text::concat3("Retrying. Next attempt in ", text::number(secs).as_str(), " seconds")
    };
    if state.max_attempts == 1 {
        message.append(".");
    } else {
        message.append(" (Attempt ");
        message.append(text::count(state.attempt).as_str());
        message.append(" of ");
        message.append(text::count(state.max_attempts).as_str());
        message.append(").");
    }
    Callout {
        severity: Severity::Warning,
        icon: IconName::Warning,
        title: state.last_error.clone(),
        description: message,
        action: None,
        copy_text: None,
        is_dismissible: false,
    }
}

/// The Markdown that is kept for an error: what was kept before, else the message of an error
/// that has one of its own.
pub open spec fn kept_markdown(view: ThreadView) -> Option<Seq<char>> {
    match (view.thread_error_markdown, view.thread_error) {
        (Some(markdown), _) => Some(markdown@),
        (None, Some(ThreadError::Other { message, .. })) => Some(message@),
        _ => None,
    }
}

/// What the callout for the error of a view describes.
pub open spec fn error_description(view: ThreadView, error: ThreadError, name: Seq<char>) -> Seq<
    char,
> {
    match (error, view.thread_error_markdown) {
        (ThreadError::Other { .. }, Some(markdown)) => markdown@,
        _ => error_message(error, name),
    }
}

/// What the callout for the error of a view shows.
pub open spec fn thread_error_shows(
    shown: Option<Callout>,
    view: ThreadView,
    can_retry: bool,
    name: Seq<char>,
) -> bool {
    &&& shown is Some <==> view.thread_error is Some
    &&& match (shown, view.thread_error) {
        (Some(callout), Some(error)) => callout_shows(
            callout,
            Severity::Error,
            IconName::XCircle,
            error_title(error),
            error_description(view, error, name),
            error_action(error, can_retry),
            if offers_copy(error) {
                Some(error_message(error, name))
            } else {
                None
            },
            true,
        ),
        _ => true,
    }
}

/// What the callout for the retry of a view shows.
pub open spec fn retry_shows(shown: Option<Callout>, view: ThreadView, now: u64) -> bool {
    match (shown, view.thread_retry_status) {
        (Some(callout), Some(state)) => time_to_next_attempt(state, now) > 0 && callout_shows(
            callout,
            Severity::Warning,
            IconName::Warning,
            state.last_error@,
            retry_message(state, time_to_next_attempt(state, now) / NANOS_PER_SEC as nat + 1),
            None,
            None,
            false,
        ),
        (None, Some(state)) => time_to_next_attempt(state, now) == 0,
        (None, None) => true,
        (Some(_), None) => false,
    }
}

/// What the callout for a thread near its token limit shows.
pub open spec fn token_limit_shows(
    shown: Option<Callout>,
    view: ThreadView,
    is_native_thread: bool,
    ratio: Option<TokenUsageRatio>,
) -> bool {
    let is_near = ratio == Some(TokenUsageRatio::Warning);
    &&& shown is Some <==> !view.token_limit_callout_dismissed && is_native_thread && (is_near || ratio
        == Some(TokenUsageRatio::Exceeded))
    &&& shown matches Some(callout) ==> callout_shows(
        callout,
        if is_near {
            Severity::Warning
        } else {
            Severity::Error
        },
        if is_near {
            IconName::Warning
        } else {
            IconName::XCircle
        },
        if is_near {
            "Thread reaching the token limit soon"@
        } else {
            "Thread reached the token limit"@
        },
        "To continue, start a new thread from a summary."@,
        Some(CalloutAction::StartNewThread),
        None,
        true,
    )
}

/// What the callout for an agent that works in one of several folders only shows.
pub open spec fn multi_root_shows(
    shown: Option<Callout>,
    view: ThreadView,
    has_native_connection: bool,
    supports_additional_directories: bool,
    worktree_count: Option<usize>,
    work_dirs: Option<&Option<String>>,
) -> bool {
    &&& shown is Some <==> !view.multi_root_callout_dismissed && !has_native_connection
        && !supports_additional_directories && (worktree_count matches Some(n) && n > 1)
        && work_dirs is Some
    &&& match (shown, work_dirs) {
        (Some(callout), Some(name)) => callout_shows(
            callout,
            Severity::Warning,
            IconName::Warning,
            "This agent doesn't currently support multi-root workspaces"@,
            "It currently only operates by default on \""@ + text::text_or(*name, "one folder"@)
                + "\"."@,
            None,
            None,
            true,
        ),
        _ => true,
    }
}

impl ThreadView {
    /// The callout for the error of the view; `name` is the name of the model or agent. The
    /// Markdown of an error is kept while the error stands.
    pub fn render_thread_error(&mut self, can_retry: bool, name: &str) -> (r: Option<Callout>)
        ensures
            *final(self) == (ThreadView {
                thread_error_markdown: final(self).thread_error_markdown,
                ..*old(self)
            }),
            text::optional_view(final(self).thread_error_markdown) == kept_markdown(*old(self)),
            thread_error_shows(r, *old(self), can_retry, name@),
    {
        let mut callout = match &self.thread_error {
            Some(error) => render_thread_error_callout(error, can_retry, name),
            None => {
                return None;
            },
        };
        let message = match &self.thread_error {
            Some(ThreadError::Other { message, .. }) => Some(message.clone()),
            _ => None,
        };
        if let Some(message) = message {
            match &self.thread_error_markdown {
                Some(markdown) => {
                    callout.description = markdown.clone();
                },
                None => {
                    self.thread_error_markdown = Some(message);
                },
            }
        }
        Some(callout)
    }

    /// The callout for a retry: what went wrong, and when the next attempt comes. A second
    /// that has begun counts as a whole one. Nothing without a retry, and once its time has
    /// come.
    pub fn render_thread_retry_status_callout(&self, now: u64) -> (r: Option<Callout>)
        ensures
            retry_shows(r, *self, now),
    {
        let state = match &self.thread_retry_status {
            Some(state) => state,
            None => {
                return None;
            },
        };
        let next_attempt_in = state.duration.saturating_sub(now.saturating_sub(state.started_at));
        if next_attempt_in == 0 {
            return None;
        }
        Some(retry_callout(state, next_attempt_in))
    }

    /// The callout for a thread that is near its token limit. Nothing where it was dismissed,
    /// where the thread is not native or has no usage, and where the usage is normal.
    pub fn render_token_limit_callout(
        &self,
        is_native_thread: bool,
        ratio: Option<TokenUsageRatio>,
    ) -> (r: Option<Callout>)
        ensures
            token_limit_shows(r, *self, is_native_thread, ratio),
    {
        if self.token_limit_callout_dismissed || !is_native_thread {
            return None;
        }
        let (severity, icon, title) = match ratio {
            None => {
                return None;
            },
            Some(TokenUsageRatio::Normal) => {
                return None;
            },
            Some(TokenUsageRatio::Warning) => (
                Severity::Warning,
                IconName::Warning,
                "Thread reaching the token limit soon",
            ),
            Some(TokenUsageRatio::Exceeded) => (
                Severity::Error,
                IconName::XCircle,
                "Thread reached the token limit",
            ),
        };
        Some(
            Callout {
                severity,
                icon,
                title: title.to_owned(),
                description: "To continue, start a new thread from a summary.".to_owned(),
                action: Some(CalloutAction::StartNewThread),
                copy_text: None,
                is_dismissible: true,
            },
        )
    }

    /// The callout for an agent that works in one of several folders only. Nothing where it was
    /// dismissed, where the agent is native or takes several folders, where the project has
    /// one folder or is gone, and where the thread has no folders.
    pub fn render_multi_root_callout(
        &self,
        has_native_connection: bool,
        supports_additional_directories: bool,
        worktree_count: Option<usize>,
        work_dirs: Option<&Option<String>>,
    ) -> (r: Option<Callout>)
        ensures
            multi_root_shows(
                r,
                *self,
                has_native_connection,
                supports_additional_directories,
                worktree_count,
                work_dirs,
            ),
    {
        if self.multi_root_callout_dismissed || has_native_connection || supports_additional_directories {
            return None;
        }
        match worktree_count {
            None => {
                return None;
            },
            Some(n) => {
                if n <= 1 {
                    return None;
                }
            },
        }
        match work_dirs {
            None => None,
            Some(name) => {
                let active: &str = match name {
                    Some(name) => name.as_str(),
                    None => "one folder",
                };
                Some(
                    Callout {
                        severity: Severity::Warning,
                        icon: IconName::Warning,
                        title: "This agent doesn't currently support multi-root workspaces".to_owned(),
                        description: text::concat3(
                            "It currently only operates by default on \"",
                            active,
                            "\".",
                        ),
                        action: None,
                        copy_text: None,
                        is_dismissible: true,
                    },
                )
            },
        }
    }

    /// Dismisses the callout for a thread that is near its token limit, and an error with it.
    pub fn dismiss_token_limit_callout(&mut self)
        ensures
            *final(self) == (ThreadView {
                thread_error: None,
                thread_error_markdown: None,
                token_limit_callout_dismissed: true,
                ..*old(self)
            }),
    {
        self.clear_thread_error();
    }

    /// Dismisses the callout for an agent that works in one folder only.
    pub fn dismiss_multi_root_callout(&mut self)
        ensures
            *final(self) == (ThreadView { multi_root_callout_dismissed: true, ..*old(self) }),
    {
        self.multi_root_callout_dismissed = true;
    }

    /// Dismisses the warning about an agent that runs better in a Linux subsystem.
    pub fn dismiss_codex_windows_warning(&mut self)
        ensures
            *final(self) == (ThreadView { show_codex_windows_warning: false, ..*old(self) }),
    {
        self.show_codex_windows_warning = false;
    }
}

/// The callout for a newer version of the agent.
pub struct NewVersionCallout {
    pub title: &'static str,
    pub button_label: String,
}

/// What the callout for a newer version shows; the version may be unknown.
pub open spec fn new_version_shows(callout: NewVersionCallout, version: Seq<char>) -> bool {
    &&& callout.title@ == (if version.len() > 0 {
        "New version available"@
    } else {
        "Agent update available"@
    })
    &&& callout.button_label@ == (if version.len() > 0 {
        "Update to v"@ + version
    } else {
        "Reconnect"@
    })
}

/// The callout for a newer version of the agent; the version may be unknown.
pub fn render_new_version_callout(version: &str) -> (r: NewVersionCallout)
    ensures
        new_version_shows(r, version@),
{
    if version.is_empty() {
        NewVersionCallout { title: "Agent update available", button_label: "Reconnect".to_owned() }
    } else {
        NewVersionCallout {
            title: "New version available",
            button_label: text::concat2("Update to v", version),
        }
    }
}

/// Whether it is the notice that earlier messages cannot be shown.
pub open spec fn is_resume_notice(callout: Callout) -> bool {
    callout_shows(
        callout,
        Severity::Info,
        IconName::Info,
        "Resumed Session"@,
        "This agent does not support viewing previous messages. However, your session will still continue from where you last left off."@,
        None,
        None,
        false,
    )
}

/// The notice that earlier messages cannot be shown.
pub fn render_resume_notice() -> (r: Callout)
    ensures
        is_resume_notice(r),
{
    Callout {
        severity: Severity::Info,
        icon: IconName::Info,
        title: "Resumed Session".to_owned(),
        description: "This agent does not support viewing previous messages. However, your session will still continue from where you last left off.".to_owned(),
        action: None,
        copy_text: None,
        is_dismissible: false,
    }
}

/// Whether it is the warning about an agent that runs better in a Linux subsystem.
pub open spec fn is_codex_warning(callout: Callout) -> bool {
    callout_shows(
        callout,
        Severity::Warning,
        IconName::Warning,
        "Codex on Windows"@,
        "For best performance, run Codex in Windows Subsystem for Linux (WSL2)"@,
        Some(CalloutAction::OpenInWsl),
        None,
        true,
    )
}

/// The warning about an agent that runs better in a Linux subsystem.
pub fn render_codex_windows_warning() -> (r: Callout)
    ensures
        is_codex_warning(r),
{
    Callout {
        severity: Severity::Warning,
        icon: IconName::Warning,
        title: "Codex on Windows".to_owned(),
        description: "For best performance, run Codex in Windows Subsystem for Linux (WSL2)".to_owned(),
        action: Some(CalloutAction::OpenInWsl),
        copy_text: None,
        is_dismissible: true,
    }
}

/// Whether it is the warning about a prompt that an external link filled in.
pub open spec fn is_external_source_warning(callout: Callout) -> bool {
    callout_shows(
        callout,
        Severity::Warning,
        IconName::Warning,
        "Review before sending"@,
        "This prompt was pre-filled by an external link. Read it carefully before you send it."@,
        None,
        None,
        true,
    )
}

/// The warning about a prompt that an external link filled in.
pub fn render_external_source_prompt_warning() -> (r: Callout)
    ensures
        is_external_source_warning(r),
{
    Callout {
        severity: Severity::Warning,
        icon: IconName::Warning,
        title: "Review before sending".to_owned(),
        description: "This prompt was pre-filled by an external link. Read it carefully before you send it.".to_owned(),
        action: None,
        copy_text: None,
        is_dismissible: true,
    }
}

/// A skill that could not be loaded.
#[derive(Debug)]
pub struct SkillLoadingError {
    pub path: String,
    pub message: String,
}

impl Clone for SkillLoadingError {
    fn clone(&self) -> (r: Self)
        ensures
            r == *self,
    {
        SkillLoadingError { path: self.path.clone(), message: self.message.clone() }
    }
}

impl Keyed for SkillLoadingError {
    type Key = (Seq<char>, Seq<char>);

    open spec fn key(&self) -> (Seq<char>, Seq<char>) {
        (self.path@, self.message@)
    }

    fn same_key(&self, other: &Self) -> (r: bool) {
        self.path == other.path && self.message == other.message
    }
}

/// What the callouts for the skills that could not be loaded show, one for each in order.
pub open spec fn skill_errors_show(shown: Seq<Callout>, errors: Seq<SkillLoadingError>) -> bool {
    &&& shown.len() == errors.len()
    &&& forall|i: int|
        0 <= i < shown.len() ==> callout_shows(
            #[trigger] shown[i],
            Severity::Warning,
            IconName::Warning,
            "Skill failed to load"@,
            errors[i].message@ + "\n"@ + errors[i].path@,
            Some(CalloutAction::OpenFile),
            None,
            true,
        )
}

/// The callouts for the skills that could not be loaded, one for each in order.
pub fn render_skill_loading_errors(errors: &Vec<SkillLoadingError>) -> (r: Vec<Callout>)
    ensures
        skill_errors_show(r@, errors@),
{
    let mut callouts: Vec<Callout> = Vec::new();
    let mut i: usize = 0;
    while i < errors.len()
        invariant
            i <= errors@.len(),
            callouts@.len() == i,
            forall|j: int|
                0 <= j < i ==> callout_shows(
                    #[trigger] callouts@[j],
                    Severity::Warning,
                    IconName::Warning,
                    "Skill failed to load"@,
                    errors@[j].message@ + "\n"@ + errors@[j].path@,
                    Some(CalloutAction::OpenFile),
                    None,
                    true,
                ),
        decreases errors@.len() - i,
    {
        callouts.push(
            Callout {
                severity: Severity::Warning,
                icon: IconName::Warning,
                title: "Skill failed to load".to_owned(),
                description: text::concat3(
                    errors[i].message.as_str(),
                    "\n",
                    errors[i].path.as_str(),
                ),
                action: Some(CalloutAction::OpenFile),
                copy_text: None,
                is_dismissible: true,
            },
        );
        i = i + 1;
    }
    callouts
}

/// The callout of an error is one: it has the title and the message of the error, can be
/// dismissed, and is copied as it reads.
pub proof fn errors_are_shown_as_errors(
    shown: Option<Callout>,
    view: ThreadView,
    can_retry: bool,
    name: Seq<char>,
)
    requires
        thread_error_shows(shown, view, can_retry, name),
    ensures
        shown is Some <==> view.thread_error is Some,
        match (shown, view.thread_error) {
            (Some(callout), Some(error)) => {
                &&& callout.severity == Severity::Error
                &&& callout.icon == IconName::XCircle
                &&& callout.is_dismissible
                &&& callout.title@ == error_title(error)
                &&& !(error is Other) ==> callout.description@ == error_message(error, name)
                &&& callout.copy_text matches Some(copied) ==> copied@ == error_message(error, name)
                &&& !can_retry ==> callout.action != Some(CalloutAction::Retry) && callout.action
                    != Some(CalloutAction::RetryIcon)
                &&& error matches ThreadError::Other { message, .. } ==> {
                    &&& callout.title@ == "An Error Happened"@
                    &&& view.thread_error_markdown is None ==> callout.description@ == message@
                    &&& view.thread_error_markdown is Some ==> callout.description@
                        == view.thread_error_markdown->0@
                    &&& callout.copy_text is Some && callout.copy_text->0@ == message@
                    &&& can_retry ==> callout.action == Some(CalloutAction::RetryIcon)
                }
            },
            _ => true,
        },
{
}

/// An error offers what helps: upgrading where the usage is exceeded, logging in where that is
/// missing, a new thread where the context is full, and a retry where it may work the next time
/// and the thread can. The others offer nothing but to be dismissed.
pub proof fn errors_offer_what_helps(error: ThreadError, can_retry: bool)
    ensures
        error_action(error, can_retry) == Some(CalloutAction::Upgrade) <==> error
            is PaymentRequired,
        error_action(error, can_retry) == Some(CalloutAction::Authenticate) <==> error
            is AuthenticationRequired,
        error_action(error, can_retry) == Some(CalloutAction::NewThread) <==> error
            is PromptTooLarge,
        error_action(error, can_retry) == Some(CalloutAction::RetryIcon) <==> error is Other
            && can_retry,
        error_action(error, can_retry) == Some(CalloutAction::Retry) <==> can_retry && (error
            is RateLimitExceeded || error is ServerOverloaded || error is StreamError || error
            is RequestFailed || error is ApiError),
        error is Refusal || error is NoApiKey || error is InvalidApiKey || error is PermissionDenied
            || error is MaxOutputTokens || error is NoModelSelected ==> error_action(
            error,
            can_retry,
        ) is None,
        offers_copy(error) <==> !(error is InvalidApiKey || error is PermissionDenied || error
            is RequestFailed || error is MaxOutputTokens || error is NoModelSelected),
{
}

/// The message of an error names its provider, where it has one, and passes on the words of an
/// error that comes with its own.
pub proof fn messages_name_the_provider(
    provider: String,
    words: String,
    code: Option<String>,
    name: Seq<char>,
)
    ensures
        provider@.is_prefix_of(error_message(ThreadError::RateLimitExceeded { provider }, name)),
        provider@.is_prefix_of(error_message(ThreadError::ServerOverloaded { provider }, name)),
        provider@.is_prefix_of(error_message(ThreadError::PermissionDenied { provider }, name)),
        provider@.is_prefix_of(error_message(ThreadError::ApiError { provider }, name)),
        provider@.is_prefix_of(reported_message(ThreadError::RateLimitExceeded { provider }, name)),
        provider@.is_prefix_of(reported_message(ThreadError::ServerOverloaded { provider }, name)),
        provider@.is_prefix_of(reported_message(ThreadError::PermissionDenied { provider }, name)),
        provider@.is_prefix_of(reported_message(ThreadError::ApiError { provider }, name)),
        ("No API key is configured for "@ + provider@).is_prefix_of(
            error_message(ThreadError::NoApiKey { provider }, name),
        ),
        ("The connection to "@ + provider@).is_prefix_of(
            error_message(ThreadError::StreamError { provider }, name),
        ),
        ("The API key for "@ + provider@).is_prefix_of(
            error_message(ThreadError::InvalidApiKey { provider }, name),
        ),
        name.is_prefix_of(error_message(ThreadError::Refusal, name)),
        reported_message(ThreadError::Refusal, name) == error_message(ThreadError::Refusal, name),
        error_message(ThreadError::AuthenticationRequired(words), name) == words@,
        reported_message(ThreadError::AuthenticationRequired(words), name) == words@,
        error_message(ThreadError::Other { acp_error_code: code, message: words }, name) == words@,
        reported_message(ThreadError::Other { acp_error_code: code, message: words }, name)
            == words@,
{
    let p = provider@;
    assert(error_message(ThreadError::RateLimitExceeded { provider }, name).subrange(
        0,
        p.len() as int,
    ) =~= p);
    assert(error_message(ThreadError::ServerOverloaded { provider }, name).subrange(
        0,
        p.len() as int,
    ) =~= p);
    assert(error_message(ThreadError::PermissionDenied { provider }, name).subrange(
        0,
        p.len() as int,
    ) =~= p);
    assert(error_message(ThreadError::ApiError { provider }, name).subrange(0, p.len() as int)
        =~= p);
    assert(reported_message(ThreadError::RateLimitExceeded { provider }, name).subrange(
        0,
        p.len() as int,
    ) =~= p);
    assert(reported_message(ThreadError::ServerOverloaded { provider }, name).subrange(
        0,
        p.len() as int,
    ) =~= p);
    assert(reported_message(ThreadError::PermissionDenied { provider }, name).subrange(
        0,
        p.len() as int,
    ) =~= p);
    assert(reported_message(ThreadError::ApiError { provider }, name).subrange(0, p.len() as int)
        =~= p);
    let key = "No API key is configured for "@ + p;
    assert(error_message(ThreadError::NoApiKey { provider }, name).subrange(0, key.len() as int)
        =~= key);
    let connection = "The connection to "@ + p;
    assert(error_message(ThreadError::StreamError { provider }, name).subrange(
        0,
        connection.len() as int,
    ) =~= connection);
    let invalid = "The API key for "@ + p;
    assert(error_message(ThreadError::InvalidApiKey { provider }, name).subrange(
        0,
        invalid.len() as int,
    ) =~= invalid);
    assert(error_message(ThreadError::Refusal, name).subrange(0, name.len() as int) =~= name);
}

/// Each error has a title and a name of its own, by which it is shown and reported.
pub proof fn errors_are_told_apart(error: ThreadError)
    ensures
        error is PaymentRequired ==> error_title(error) == "Free Usage Exceeded"@ && error_kind(
            error,
        ) == "payment_required"@,
        error is Refusal ==> error_title(error) == "Request Refused"@ && error_kind(error)
            == "refusal"@,
        error is AuthenticationRequired ==> error_title(error) == "Authentication Required"@
            && error_kind(error) == "authentication_required"@,
        error is RateLimitExceeded ==> error_title(error) == "Rate Limit Reached"@ && error_kind(
            error,
        ) == "rate_limit_exceeded"@,
        error is ServerOverloaded ==> error_title(error) == "Provider Unavailable"@ && error_kind(
            error,
        ) == "server_overloaded"@,
        error is PromptTooLarge ==> error_title(error) == "Context Too Large"@ && error_kind(error)
            == "prompt_too_large"@,
        error is NoApiKey ==> error_title(error) == "API Key Missing"@ && error_kind(error)
            == "no_api_key"@,
        error is StreamError ==> error_title(error) == "Connection Interrupted"@ && error_kind(
            error,
        ) == "stream_error"@,
        error is InvalidApiKey ==> error_title(error) == "Invalid API Key"@ && error_kind(error)
            == "invalid_api_key"@,
        error is PermissionDenied ==> error_title(error) == "Permission Denied"@ && error_kind(
            error,
        ) == "permission_denied"@,
        error is RequestFailed ==> error_title(error) == "Request Failed"@ && error_kind(error)
            == "request_failed"@,
        error is MaxOutputTokens ==> error_title(error) == "Output Limit Reached"@ && error_kind(
            error,
        ) == "max_output_tokens"@,
        error is NoModelSelected ==> error_title(error) == "No Model Selected"@ && error_kind(error)
            == "no_model_selected"@,
        error is ApiError ==> error_title(error) == "API Error"@ && error_kind(error)
            == "api_error"@,
        error is Other ==> error_title(error) == "An Error Happened"@ && error_kind(error)
            == "other"@,
{
}

/// A callout is what it shows, part by part.
pub proof fn callouts_are_what_they_show(
    callout: Callout,
    severity: Severity,
    icon: IconName,
    title: Seq<char>,
    description: Seq<char>,
    action: Option<CalloutAction>,
    copy_text: Option<Seq<char>>,
    is_dismissible: bool,
)
    requires
        callout_shows(
            callout,
            severity,
            icon,
            title,
            description,
            action,
            copy_text,
            is_dismissible,
        ),
    ensures
        callout.severity == severity,
        callout.icon == icon,
        callout.title@ == title,
        callout.description@ == description,
        callout.action == action,
        callout.copy_text is Some <==> copy_text is Some,
        callout.copy_text is Some ==> callout.copy_text->0@ == copy_text->0,
        callout.is_dismissible == is_dismissible,
{
}

/// A retry is shown until its time comes, with the error that it is about. The seconds that are
/// left are rounded up, so that the callout never promises an attempt too early.
pub proof fn retries_count_down(shown: Option<Callout>, view: ThreadView, now: u64)
    requires
        retry_shows(shown, view, now),
    ensures
        view.thread_retry_status is None ==> shown is None,
        view.thread_retry_status matches Some(state) ==> {
            &&& shown is Some <==> now < state.started_at + state.duration && state.duration > 0
                || now < state.started_at && state.duration > 0
            &&& shown matches Some(callout) ==> callout.title@ == state.last_error@
                && callout.severity == Severity::Warning && callout.icon == IconName::Warning
                && callout.action is None && !callout.is_dismissible
        },
{
}

/// The time that is left leads from now to the attempt.
pub proof fn the_time_left_leads_to_the_attempt(state: RetryStatus, now: u64)
    ensures
        state.started_at <= now && now <= state.started_at + state.duration ==> now
            + time_to_next_attempt(state, now) == state.started_at + state.duration,
        now > state.started_at + state.duration ==> time_to_next_attempt(state, now) == 0,
        now < state.started_at ==> time_to_next_attempt(state, now) == state.duration,
{
}

/// The sentence about the next attempt counts seconds, one of them by its own form, and the
/// attempts where there is more than one.
pub proof fn the_sentence_counts_seconds_and_attempts(state: RetryStatus, secs: nat)
    ensures
        state.max_attempts == 1 && secs == 1 ==> retry_message(state, secs)
            == "Retrying. Next attempt in 1 second"@ + "."@,
        state.max_attempts == 1 && secs != 1 ==> retry_message(state, secs)
            == "Retrying. Next attempt in "@ + text::decimal(secs) + " seconds"@ + "."@,
        state.max_attempts != 1 && secs == 1 ==> retry_message(state, secs)
            == "Retrying. Next attempt in 1 second"@ + " (Attempt "@ + text::decimal(
            state.attempt as nat,
        ) + " of "@ + text::decimal(state.max_attempts as nat) + ")."@,
        state.max_attempts != 1 && secs != 1 ==> retry_message(state, secs)
            == "Retrying. Next attempt in "@ + text::decimal(secs) + " seconds"@ + " (Attempt "@
            + text::decimal(state.attempt as nat) + " of "@ + text::decimal(
            state.max_attempts as nat,
        ) + ")."@,
{
}

/// What was kept of an error is kept on; the words of an error with its own are kept where
/// nothing was.
pub proof fn the_words_of_an_error_are_kept(view: ThreadView)
    ensures
        view.thread_error_markdown matches Some(kept) ==> kept_markdown(view) == Some(kept@),
        view.thread_error_markdown is None && view.thread_error is Some ==> (match view.thread_error
        {
            Some(ThreadError::Other { message, .. }) => kept_markdown(view) == Some(message@),
            _ => kept_markdown(view) is None,
        }),
        view.thread_error_markdown is None && view.thread_error is None ==> kept_markdown(view)
            is None,
{
}

/// A native thread near its limit, or over it, says so, until the callout is dismissed: a warning
/// before the limit, an error behind it. It offers a new thread.
pub proof fn native_threads_warn_of_their_limit(
    shown: Option<Callout>,
    view: ThreadView,
    is_native_thread: bool,
    ratio: Option<TokenUsageRatio>,
)
    requires
        token_limit_shows(shown, view, is_native_thread, ratio),
    ensures
        shown is Some ==> is_native_thread && !view.token_limit_callout_dismissed && ratio is Some
            && ratio != Some(TokenUsageRatio::Normal),
        is_native_thread && !view.token_limit_callout_dismissed && ratio is Some && ratio != Some(
            TokenUsageRatio::Normal,
        ) ==> shown is Some,
        shown matches Some(callout) ==> {
            &&& callout.severity == Severity::Warning <==> ratio == Some(TokenUsageRatio::Warning)
            &&& callout.severity == Severity::Error <==> ratio == Some(TokenUsageRatio::Exceeded)
            &&& callout.icon == IconName::Warning <==> ratio == Some(TokenUsageRatio::Warning)
            &&& ratio == Some(TokenUsageRatio::Warning) ==> callout.title@
                == "Thread reaching the token limit soon"@
            &&& ratio == Some(TokenUsageRatio::Exceeded) ==> callout.title@
                == "Thread reached the token limit"@
            &&& callout.action == Some(CalloutAction::StartNewThread)
            &&& callout.is_dismissible
        },
{
    match ratio {
        Some(TokenUsageRatio::Normal) => {},
        Some(TokenUsageRatio::Warning) => {},
        Some(TokenUsageRatio::Exceeded) => {},
        None => {},
    }
}

/// An agent that takes one folder only says so in a project with more than one, and names the
/// folder that it works in.
pub proof fn agents_with_one_folder_name_it(
    shown: Option<Callout>,
    view: ThreadView,
    has_native_connection: bool,
    supports_additional_directories: bool,
    worktree_count: Option<usize>,
    work_dirs: Option<&Option<String>>,
)
    requires
        multi_root_shows(
            shown,
            view,
            has_native_connection,
            supports_additional_directories,
            worktree_count,
            work_dirs,
        ),
    ensures
        view.multi_root_callout_dismissed || has_native_connection
            || supports_additional_directories || worktree_count is None || work_dirs is None
            ==> shown is None,
        worktree_count is Some && worktree_count->0 <= 1 ==> shown is None,
        !view.multi_root_callout_dismissed && !has_native_connection
            && !supports_additional_directories && worktree_count is Some && worktree_count->0 >= 2
            && work_dirs is Some ==> shown is Some,
        shown matches Some(callout) ==> callout.severity == Severity::Warning
            && callout.is_dismissible && callout.action is None && callout.title@
            == "This agent doesn't currently support multi-root workspaces"@
            && callout.description@ == "It currently only operates by default on \""@ + (
        match *(work_dirs->0) {
            Some(name) => name@,
            None => "one folder"@,
        }) + "\"."@,
{
}

/// An update is offered by its version, where that is known.
pub proof fn updates_are_offered_by_their_version(callout: NewVersionCallout, version: Seq<char>)
    requires
        new_version_shows(callout, version),
    ensures
        version.len() != 0 ==> callout.title@ == "New version available"@ && callout.button_label@
            == "Update to v"@ + version,
        version.len() == 0 ==> callout.title@ == "Agent update available"@
            && callout.button_label@ == "Reconnect"@,
{
}

/// The fixed notices: only the resumed session is no warning, and it alone cannot be dismissed.
pub proof fn fixed_notices_say_what_they_are(callout: Callout)
    ensures
        is_resume_notice(callout) ==> callout.severity == Severity::Info && callout.icon
            == IconName::Info && !callout.is_dismissible && callout.title@ == "Resumed Session"@
            && callout.action is None,
        is_codex_warning(callout) ==> callout.severity == Severity::Warning
            && callout.is_dismissible && callout.title@ == "Codex on Windows"@ && callout.action
            == Some(CalloutAction::OpenInWsl) && callout.description@
            == "For best performance, run Codex in Windows Subsystem for Linux (WSL2)"@,
        is_external_source_warning(callout) ==> callout.severity == Severity::Warning
            && callout.is_dismissible && callout.title@ == "Review before sending"@
            && callout.action is None && callout.description@
            == "This prompt was pre-filled by an external link. Read it carefully before you send it."@,
{
}

/// Each skill that could not be loaded has a callout of its own, in order, with its message and
/// its file, which can be opened.
pub proof fn every_skill_error_is_shown(
    shown: Seq<Callout>,
    errors: Seq<SkillLoadingError>,
    i: int,
)
    requires
        skill_errors_show(shown, errors),
        0 <= i < errors.len(),
    ensures
        shown.len() == errors.len(),
        shown[i].title@ == "Skill failed to load"@,
        shown[i].description@ == errors[i].message@ + seq!['\n'] + errors[i].path@,
        shown[i].action == Some(CalloutAction::OpenFile),
        shown[i].severity == Severity::Warning,
        shown[i].is_dismissible,
        errors[i].key() == (errors[i].path@, errors[i].message@),
{
    reveal_strlit("\n");
    assert("\n"@ =~= seq!['\n']);
    assert(callout_shows(
        shown[i],
        Severity::Warning,
        IconName::Warning,
        "Skill failed to load"@,
        errors[i].message@ + "\n"@ + errors[i].path@,
        Some(CalloutAction::OpenFile),
        None,
        true,
    ));
}

/// What is shown of an error, word by word: what happened, with the name of the provider or of
/// the model, and what the user can do.
pub proof fn shown_messages_say_what_to_do(error: ThreadError, name: Seq<char>)
    ensures
        match error {
            ThreadError::PaymentRequired => error_message(error, name)
                == "You reached your free usage limit. Upgrade to Zed Pro for more prompts."@,
            ThreadError::Refusal => error_message(error, name)
                == name + " refused to respond to this prompt. This can happen when a model believes the prompt violates its content policy or safety guidelines, so rephrasing it can sometimes address the issue."@,
            ThreadError::AuthenticationRequired(message) => error_message(error, name) == message@,
            ThreadError::RateLimitExceeded { provider } => error_message(error, name)
                == provider@ + "'s rate limit was reached. Zed will retry automatically. You can also wait a moment and try again."@,
            ThreadError::ServerOverloaded { provider } => error_message(error, name)
                == provider@ + "'s servers are temporarily unavailable. Zed will retry automatically. If the problem persists, check the provider's status page."@,
            ThreadError::PromptTooLarge => error_message(error, name)
                == "This conversation is too long for the model's context window. Start a new thread or remove some attached files to continue."@,
            ThreadError::NoApiKey { provider } => error_message(error, name)
                == "No API key is configured for "@ + provider@ + ". Add your key via the Agent Panel settings to continue."@,
            ThreadError::StreamError { provider } => error_message(error, name)
                == "The connection to "@ + provider@ + "'s API was interrupted. Zed will retry automatically. If the problem persists, check your network connection."@,
            ThreadError::InvalidApiKey { provider } => error_message(error, name)
                == "The API key for "@ + provider@ + " is invalid or has expired. Update your key via the Agent Panel settings to continue."@,
            ThreadError::PermissionDenied { provider } => error_message(error, name)
                == provider@ + "'s API rejected the request due to insufficient permissions. Check that your API key has access to this model."@,
            ThreadError::RequestFailed => error_message(error, name)
                == "The request could not be completed after multiple attempts. Try again in a moment."@,
            ThreadError::MaxOutputTokens => error_message(error, name)
                == "The model stopped because it reached its maximum output length. You can ask it to continue where it left off."@,
            ThreadError::NoModelSelected => error_message(error, name)
                == "Select a model from the model picker below to get started."@,
            ThreadError::ApiError { provider } => error_message(error, name)
                == provider@ + "'s API returned an unexpected error. If the problem persists, try switching models or restarting Zed."@,
            ThreadError::Other { message, .. } => error_message(error, name) == message@,
        },
{
}

/// What is reported of an error, word by word: what happened, with the name of the provider or
/// of the model.
pub proof fn reported_messages_say_what_happened(error: ThreadError, name: Seq<char>)
    ensures
        match error {
            ThreadError::PaymentRequired => reported_message(error, name)
                == "You reached your free usage limit. Upgrade to Zed Pro for more prompts."@,
            ThreadError::Refusal => reported_message(error, name)
                == name + " refused to respond to this prompt. This can happen when a model believes the prompt violates its content policy or safety guidelines, so rephrasing it can sometimes address the issue."@,
            ThreadError::AuthenticationRequired(message) => reported_message(error, name) == message@,
            ThreadError::RateLimitExceeded { provider } => reported_message(error, name)
                == provider@ + "'s rate limit was reached."@,
            ThreadError::ServerOverloaded { provider } => reported_message(error, name)
                == provider@ + "'s servers are temporarily unavailable."@,
            ThreadError::PromptTooLarge => reported_message(error, name)
                == "Context too large for the model's context window."@,
            ThreadError::NoApiKey { provider } => reported_message(error, name)
                == "No API key configured for "@ + provider@ + "."@,
            ThreadError::StreamError { provider } => reported_message(error, name)
                == "Connection to "@ + provider@ + "'s API was interrupted."@,
            ThreadError::InvalidApiKey { provider } => reported_message(error, name)
                == "Invalid or expired API key for "@ + provider@ + "."@,
            ThreadError::PermissionDenied { provider } => reported_message(error, name)
                == provider@ + "'s API rejected the request due to insufficient permissions."@,
            ThreadError::RequestFailed => reported_message(error, name)
                == "Request could not be completed after multiple attempts."@,
            ThreadError::MaxOutputTokens => reported_message(error, name)
                == "Model reached its maximum output length."@,
            ThreadError::NoModelSelected => reported_message(error, name) == "No model selected."@,
            ThreadError::ApiError { provider } => reported_message(error, name)
                == provider@ + "'s API returned an unexpected error."@,
            ThreadError::Other { message, .. } => reported_message(error, name) == message@,
        },
{
}

/// The fixed sentences of the callouts.
pub proof fn callouts_have_fixed_sentences(
    shown: Option<Callout>,
    view: ThreadView,
    is_native_thread: bool,
    ratio: Option<TokenUsageRatio>,
    resumed: Callout,
)
    requires
        token_limit_shows(shown, view, is_native_thread, ratio),
        is_resume_notice(resumed),
    ensures
        shown matches Some(callout) ==> callout.description@
            == "To continue, start a new thread from a summary."@,
        resumed.description@
            == "This agent does not support viewing previous messages. However, your session will still continue from where you last left off."@,
{
}

/// The warnings look like warnings.
pub proof fn warnings_look_like_warnings(callout: Callout)
    requires
        is_codex_warning(callout) || is_external_source_warning(callout),
    ensures
        callout.icon == IconName::Warning,
        callout.severity == Severity::Warning,
        callout.copy_text is None,
{
}

/// The callout counts the second that the attempt falls into, from now on, as a whole one.
pub proof fn retries_count_the_second_of_the_attempt(
    callout: Callout,
    view: ThreadView,
    state: RetryStatus,
    now: u64,
    secs: nat,
)
    requires
        retry_shows(Some(callout), view, now),
        view.thread_retry_status == Some(state),
        state.started_at <= now,
        secs > 0,
        now + (secs - 1) * 1_000_000_000 <= state.started_at + state.duration,
        state.started_at + state.duration < now + secs * 1_000_000_000,
    ensures
        callout.description@ == retry_message(state, secs),
{
    let left = time_to_next_attempt(state, now);
    assert(left == state.started_at + state.duration - now);
    assert(left / 1_000_000_000 + 1 == secs);
}

} // verus!
