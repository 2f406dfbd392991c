//! The turns of a conversation: how long they take and how many tokens they use.

use crate::model::TokenUsageRatio;
use vstd::prelude::*;

verus! {

/// The current turn and the last one. Times are in nanoseconds of one clock.
pub struct TurnFields {
    /// Whether the timer that refreshes the view runs.
    pub turn_timer_running: bool,
    pub last_turn_duration: Option<u64>,
    pub last_turn_tokens: Option<u64>,
    pub turn_generation: usize,
    pub turn_started_at: Option<u64>,
    pub turn_tokens: Option<u64>,
}

impl Default for TurnFields {
    fn default() -> (r: Self)
        ensures
            r == (TurnFields {
                turn_timer_running: false,
                last_turn_duration: None,
                last_turn_tokens: None,
                turn_generation: 0,
                turn_started_at: None,
                turn_tokens: None,
            }),
    {
        TurnFields {
            turn_timer_running: false,
            last_turn_duration: None,
            last_turn_tokens: None,
            turn_generation: 0,
            turn_started_at: None,
            turn_tokens: None,
        }
    }
}

/// The turn that starts at `now`.
pub open spec fn started(turn: TurnFields, now: u64) -> TurnFields {
    TurnFields {
        turn_timer_running: true,
        last_turn_duration: None,
        last_turn_tokens: None,
        turn_generation: (turn.turn_generation + 1) as usize,
        turn_started_at: Some(now),
        turn_tokens: Some(0),
    }
}

/// The time from `start` to `now`; zero where the clock went back.
pub open spec fn elapsed(start: u64, now: u64) -> u64 {
    if now >= start {
        (now - start) as u64
    } else {
        0
    }
}

/// The turn after its end at `now`; a later turn is left alone.
pub open spec fn stopped(turn: TurnFields, generation: usize, now: u64) -> TurnFields {
    if turn.turn_generation != generation {
        turn
    } else {
        TurnFields {
            turn_timer_running: false,
            last_turn_duration: match turn.turn_started_at {
                Some(start) => Some(elapsed(start, now)),
                None => None,
            },
            last_turn_tokens: turn.turn_tokens,
            turn_generation: turn.turn_generation,
            turn_started_at: None,
            turn_tokens: None,
        }
    }
}

impl TurnFields {
    /// Starts a turn and gives its generation.
    pub fn start(&mut self, now: u64) -> (generation: usize)
        requires
            old(self).turn_generation < usize::MAX,
        ensures
            *final(self) == started(*old(self), now),
            generation == final(self).turn_generation,
    {
        let generation: usize = self.turn_generation + 1;
        self.turn_generation = generation;
        self.turn_started_at = Some(now);
        self.last_turn_duration = None;
        self.last_turn_tokens = None;
        self.turn_tokens = Some(0);
        self.turn_timer_running = true;
        generation
    }

    /// Ends the turn of this generation; a later turn is left alone.
    pub fn stop(&mut self, generation: usize, now: u64)
        ensures
            *final(self) == stopped(*old(self), generation, now),
    {
        if self.turn_generation != generation {
            return;
        }
        self.last_turn_duration = match self.turn_started_at {
            Some(start) => Some(now.saturating_sub(start)),
            None => None,
        };
        self.turn_started_at = None;
        self.last_turn_tokens = self.turn_tokens;
        self.turn_tokens = None;
        self.turn_timer_running = false;
    }
}

/// A turn that starts and stops leaves behind how long it took and its tokens. Stopping an
/// earlier turn in between changes nothing.
pub proof fn a_turn_records_its_own_time(turn: TurnFields, start: u64, now: u64, earlier: usize)
    requires
        turn.turn_generation < usize::MAX,
        earlier <= turn.turn_generation,
    ensures
        ({
            let running = started(turn, start);
            let ended = stopped(running, running.turn_generation, now);
            &&& stopped(running, earlier, now) == running
            &&& ended.last_turn_duration == Some(elapsed(start, now))
            &&& ended.last_turn_tokens == Some(0u64)
            &&& ended.turn_started_at is None
            &&& !ended.turn_timer_running
        }),
{
}

/// Stopping a turn after a newer one has started never ends the newer one.
pub proof fn stopping_an_earlier_turn_changes_nothing(
    turn: TurnFields,
    first: u64,
    second: u64,
    now: u64,
)
    requires
        turn.turn_generation + 2 <= usize::MAX,
    ensures
        ({
            let earlier = started(turn, first);
            let newer = started(earlier, second);
            &&& stopped(newer, earlier.turn_generation, now) == newer
            &&& newer.turn_started_at == Some(second)
            &&& newer.turn_tokens == Some(0u64)
            &&& newer.last_turn_duration is None
            &&& newer.last_turn_tokens is None
        }),
{
}

/// The rank of a ratio: the nearer to the limit, the higher.
pub open spec fn rank(ratio: TokenUsageRatio) -> int {
    match ratio {
        TokenUsageRatio::Normal => 0,
        TokenUsageRatio::Warning => 1,
        TokenUsageRatio::Exceeded => 2,
    }
}

/// What is remembered after a ratio was seen, and whether it is reported.
pub open spec fn limit_report(last: Option<TokenUsageRatio>, ratio: TokenUsageRatio) -> (
    Option<TokenUsageRatio>,
    bool,
) {
    if ratio == TokenUsageRatio::Normal {
        (None, false)
    } else if last matches Some(l) && rank(l) >= rank(ratio) {
        (last, false)
    } else {
        (Some(ratio), true)
    }
}

/// The word for a ratio that is reported.
pub open spec fn limit_word(ratio: TokenUsageRatio) -> Seq<char> {
    match ratio {
        TokenUsageRatio::Warning => "warning"@,
        _ => "exceeded"@,
    }
}

fn rank_of(ratio: TokenUsageRatio) -> (r: u8)
    ensures
        r == rank(ratio),
{
    match ratio {
        TokenUsageRatio::Normal => 0,
        TokenUsageRatio::Warning => 1,
        TokenUsageRatio::Exceeded => 2,
    }
}

/// Reports a ratio that is nearer to the limit than what was reported since the usage was
/// last normal.
pub fn report_limit(last: &mut Option<TokenUsageRatio>, ratio: TokenUsageRatio) -> (r: Option<
    &'static str,
>)
    ensures
        (*final(last), r is Some) == limit_report(*old(last), ratio),
        r matches Some(word) ==> word@ == limit_word(ratio),
{
    let word = match ratio {
        TokenUsageRatio::Normal => {
            *last = None;
            return None;
        },
        TokenUsageRatio::Warning => "warning",
        TokenUsageRatio::Exceeded => "exceeded",
    };
    let should_skip = match *last {
        Some(l) => rank_of(l) >= rank_of(ratio),
        None => false,
    };
    if should_skip {
        return None;
    }
    *last = Some(ratio);
    Some(word)
}

/// A ratio is reported once: seeing it again, or a lower one that is not normal, reports
/// nothing and is not remembered.
pub proof fn a_limit_is_reported_once(
    last: Option<TokenUsageRatio>,
    ratio: TokenUsageRatio,
    next: TokenUsageRatio,
)
    requires
        limit_report(last, ratio).1,
        next != TokenUsageRatio::Normal,
        rank(next) <= rank(ratio),
    ensures
        limit_report(limit_report(last, ratio).0, next) == (limit_report(last, ratio).0, false),
{
}

/// A turn that starts is a new generation, runs from now on, and has used no tokens. What the
/// last turn left behind is forgotten.
pub proof fn a_turn_starts_afresh(turn: TurnFields, now: u64)
    requires
        turn.turn_generation < usize::MAX,
    ensures
        started(turn, now).turn_generation == turn.turn_generation + 1,
        started(turn, now).turn_started_at == Some(now),
        started(turn, now).turn_tokens == Some(0u64),
        started(turn, now).turn_timer_running,
        started(turn, now).last_turn_duration is None,
        started(turn, now).last_turn_tokens is None,
{
}

/// A turn that ends keeps its tokens and the time from its start, and its generation. A turn of
/// another generation goes on as it was.
pub proof fn a_turn_that_ends_keeps_its_numbers(
    turn: TurnFields,
    generation: usize,
    start: u64,
    now: u64,
)
    requires
        start <= now,
    ensures
        generation != turn.turn_generation ==> stopped(turn, generation, now) == turn,
        generation == turn.turn_generation ==> {
            let ended = stopped(turn, generation, now);
            &&& ended.turn_generation == turn.turn_generation
            &&& ended.last_turn_tokens == turn.turn_tokens
            &&& ended.turn_tokens is None
            &&& ended.turn_started_at is None
            &&& !ended.turn_timer_running
            &&& turn.turn_started_at == Some(start) ==> (ended.last_turn_duration matches Some(
                duration,
            ) && start + duration == now)
            &&& turn.turn_started_at is None ==> ended.last_turn_duration is None
        },
{
}

/// The elapsed time added to the start gives the end; a clock that went back gives no time.
pub proof fn elapsed_time_leads_from_start_to_end(start: u64, now: u64)
    ensures
        start <= now ==> start + elapsed(start, now) == now,
        now < start ==> elapsed(start, now) == 0,
{
}

/// A ratio that is not normal is reported exactly where nothing as near to the limit was
/// reported since the usage was last normal, and is remembered then. A normal one is never
/// reported and makes a fresh start.
pub proof fn limits_are_reported_as_they_come_nearer(
    last: Option<TokenUsageRatio>,
    ratio: TokenUsageRatio,
)
    ensures
        limit_report(last, TokenUsageRatio::Normal) == (None::<TokenUsageRatio>, false),
        last is None && ratio != TokenUsageRatio::Normal ==> limit_report(last, ratio) == (
            Some(ratio),
            true,
        ),
        limit_report(Some(TokenUsageRatio::Warning), TokenUsageRatio::Exceeded) == (
            Some(TokenUsageRatio::Exceeded),
            true,
        ),
        limit_report(Some(TokenUsageRatio::Exceeded), TokenUsageRatio::Warning) == (
            Some(TokenUsageRatio::Exceeded),
            false,
        ),
        ratio != TokenUsageRatio::Normal ==> limit_report(Some(ratio), ratio) == (
            Some(ratio),
            false,
        ),
        rank(TokenUsageRatio::Normal) < rank(TokenUsageRatio::Warning),
        rank(TokenUsageRatio::Warning) < rank(TokenUsageRatio::Exceeded),
{
}

/// The word for a limit that comes near differs from the word for one that was exceeded.
pub proof fn limits_have_their_words(ratio: TokenUsageRatio)
    ensures
        ratio != TokenUsageRatio::Normal ==> (limit_word(ratio) == "warning"@ <==> ratio
            == TokenUsageRatio::Warning),
        ratio != TokenUsageRatio::Normal ==> (limit_word(ratio) == "exceeded"@ <==> ratio
            == TokenUsageRatio::Exceeded),
{
    reveal_strlit("warning");
    reveal_strlit("exceeded");
    assert("warning"@.len() == 7);
    assert("exceeded"@.len() == 8);
}

} // verus!
