//! How full the context of a thread is, and how that is shown.

use crate::model::{AcpThread, Color, TokenUsage};
use crate::text;
use crate::thread_view::ThreadView;
use crate::thread_view;
use vstd::prelude::*;
use vstd::string::*;

verus! {

/// The size of the context of the build agent while nothing better is known.
pub const GROK_DEFAULT_MAX_CONTEXT: u64 = 1_000_000;

/// The share of the context, in percent, from which on it will soon be compacted.
pub const COMPACTION_PERCENT: u32 = 50;

/// The share of the context, in percent, from which on it is nearly full.
pub const CRITICAL_PERCENT: u32 = 90;

/// The usage of an empty context of this size.
pub open spec fn empty_usage(max: u64) -> TokenUsage {
    TokenUsage {
        used_tokens: 0,
        max_tokens: max,
        max_output_tokens: Some(max),
        input_tokens: 0,
        output_tokens: 0,
    }
}

/// The usage that is shown: what the thread reports where it knows the size of its context;
/// for the build agent else an empty context of the size that its model has.
pub open spec fn effective_usage(
    reported: Option<TokenUsage>,
    is_grok: bool,
    model_max_tokens: Option<u64>,
) -> Option<TokenUsage> {
    match reported {
        Some(usage) if usage.max_tokens > 0 => Some(usage),
        _ => if !is_grok {
            None
        } else {
            match model_max_tokens {
                Some(max) if max > 0 => Some(empty_usage(max)),
                _ => Some(empty_usage(GROK_DEFAULT_MAX_CONTEXT)),
            }
        },
    }
}

/// The zone of a share of the context: 0 up to compaction, 1 up to the critical share, 2 from
/// there on.
pub open spec fn zone(percent: u32) -> nat {
    if percent >= CRITICAL_PERCENT {
        2
    } else if percent >= COMPACTION_PERCENT {
        1
    } else {
        0
    }
}

/// The share of the context that counts: without a usage, or without a size, none.
pub open spec fn counted_percent(usage: Option<TokenUsage>, percent: u32) -> u32 {
    match usage {
        Some(usage) => if usage.max_tokens > 0 {
            percent
        } else {
            0
        },
        None => 0,
    }
}

/// The number of subagents from which on the numbers of the ring are packed more closely.
pub const MANY_SUBAGENTS: usize = 1000;

/// The number of what the ring shows. Up to a thousand subagents the zone has a digit of its
/// own; the numbers for more subagents lie behind those.
pub open spec fn bucket(zone: nat, subagent_count: nat, has_outstanding_todos: bool) -> nat {
    let flag: nat = if has_outstanding_todos {
        1
    } else {
        0
    };
    if subagent_count < MANY_SUBAGENTS {
        zone * 10000 + subagent_count * 10 + flag
    } else {
        (30000 + (subagent_count - MANY_SUBAGENTS) * 6 + zone * 2 + flag) as nat
    }
}

/// Whether the ring has a number for so many subagents.
pub open spec fn has_bucket(subagent_count: nat) -> bool {
    bucket(2, subagent_count, true) <= u32::MAX
}

/// Whether the ring has a number for so many subagents.
pub fn ring_has_bucket(subagent_count: usize) -> (r: bool)
    ensures
        r == has_bucket(subagent_count as nat),
{
    subagent_count < MANY_SUBAGENTS || subagent_count - MANY_SUBAGENTS <= ((u32::MAX - 30005)
        / 6) as usize
}

/// The number of what the ring shows. It changes only where the ring looks different, so that
/// nothing is redrawn for a usage that looks the same. `percent` is the share of the context
/// that is used, rounded down.
pub fn ring_visual_bucket(
    usage: Option<&TokenUsage>,
    percent: u32,
    subagent_count: usize,
    has_outstanding_todos: bool,
) -> (r: u32)
    requires
        has_bucket(subagent_count as nat),
    ensures
        r == bucket(
            zone(
                counted_percent(
                    match usage {
                        Some(usage) => Some(*usage),
                        None => None,
                    },
                    percent,
                ),
            ),
            subagent_count as nat,
            has_outstanding_todos,
        ),
{
    let counted: u32 = match usage {
        Some(usage) => if usage.max_tokens > 0 {
            percent
        } else {
            0
        },
        None => 0,
    };
    let threshold: u32 = if counted >= CRITICAL_PERCENT {
        2
    } else if counted >= COMPACTION_PERCENT {
        1
    } else {
        0
    };
    let flag: u32 = if has_outstanding_todos {
        1
    } else {
        0
    };
    if subagent_count < MANY_SUBAGENTS {
        threshold * 10000 + (subagent_count as u32) * 10 + flag
    } else {
        30000 + ((subagent_count - MANY_SUBAGENTS) as u32) * 6 + threshold * 2 + flag
    }
}

/// Two states have the same number exactly where the ring looks the same: the same zone, the
/// same number of subagents, and outstanding todos in both or in neither. There are three
/// zones.
pub proof fn same_bucket_means_same_look(
    first_zone: nat,
    first_count: nat,
    first_todos: bool,
    second_zone: nat,
    second_count: nat,
    second_todos: bool,
)
    requires
        first_zone <= 2,
        second_zone <= 2,
    ensures
        bucket(first_zone, first_count, first_todos) == bucket(
            second_zone,
            second_count,
            second_todos,
        ) <==> first_zone == second_zone && first_count == second_count && first_todos
            == second_todos,
{
}

/// The label of the ring and its colour.
pub open spec fn status_label(
    subagent_count: nat,
    has_outstanding_todos: bool,
    percent: u32,
) -> (Seq<char>, Color) {
    if subagent_count > 0 {
        (text::decimal(subagent_count) + " sub-agents"@, Color::Accent)
    } else if !has_outstanding_todos {
        ("Idle"@, Color::Muted)
    } else if percent >= COMPACTION_PERCENT {
        ("Compaction risk"@, Color::Warning)
    } else {
        ("Working"@, Color::Warning)
    }
}

/// The label of the ring and its colour. `percent` is the share of the context that is used,
/// rounded down.
pub fn ring_status_label(
    subagent_count: usize,
    has_outstanding_todos: bool,
    usage: Option<&TokenUsage>,
    percent: u32,
) -> (r: (String, Color))
    ensures
        (r.0@, r.1) == status_label(
            subagent_count as nat,
            has_outstanding_todos,
            counted_percent(
                match usage {
                    Some(usage) => Some(*usage),
                    None => None,
                },
                percent,
            ),
        ),
{
    let is_idle = subagent_count == 0 && !has_outstanding_todos;
    let label = if is_idle {
        "Idle".to_owned()
    } else if subagent_count > 0 {
        text::concat2(text::count(subagent_count).as_str(), " sub-agents")
    } else {
        match usage {
            Some(usage) => if usage.max_tokens > 0 && percent >= COMPACTION_PERCENT {
                "Compaction risk".to_owned()
            } else {
                "Working".to_owned()
            },
            None => "Working".to_owned(),
        }
    };
    let color = if is_idle {
        Color::Muted
    } else if subagent_count > 0 {
        Color::Accent
    } else {
        Color::Warning
    };
    (label, color)
}

/// The label for a share of the context, and its colour.
pub open spec fn percent_label(percent: u32) -> (Seq<char>, Color) {
    (
        text::decimal(percent as nat) + (if percent >= COMPACTION_PERCENT {
            "% imminent"@
        } else {
            "%"@
        }),
        if percent >= CRITICAL_PERCENT {
            Color::Error
        } else if percent >= COMPACTION_PERCENT {
            Color::Warning
        } else {
            Color::Muted
        },
    )
}

/// The label for the share of the context that is used, and its colour. Nothing where the size
/// of the context is unknown.
pub fn usage_imminent_label(usage: &TokenUsage, percent: u32) -> (r: Option<(String, Color)>)
    ensures
        r is Some <==> usage.max_tokens > 0,
        r matches Some((label, color)) ==> (label@, color) == percent_label(percent),
{
    if usage.max_tokens == 0 {
        return None;
    }
    let suffix = if percent >= COMPACTION_PERCENT {
        "% imminent"
    } else {
        "%"
    };
    let label = text::concat2(text::number(percent as u64).as_str(), suffix);
    let color = if percent >= CRITICAL_PERCENT {
        Color::Error
    } else if percent >= COMPACTION_PERCENT {
        Color::Warning
    } else {
        Color::Muted
    };
    Some((label, color))
}

/// A ring: how much of how much is used.
#[derive(Clone, Copy, PartialEq, Eq, Structural, Debug)]
pub struct Ring {
    pub value: u64,
    pub max: u64,
}

/// The rings for the usage of a thread.
#[derive(Clone, Copy, PartialEq, Eq, Structural, Debug)]
pub enum UsageRings {
    Whole(Ring),
    /// One for the input and one for the output.
    Split { input: Ring, output: Ring },
}

/// The usage of a thread as it is drawn.
#[derive(Clone, Copy, PartialEq, Eq, Structural, Debug)]
pub struct TokenUsageView {
    pub usage: TokenUsage,
    /// The most input and output tokens, which the tooltip shows.
    pub input_max: u64,
    pub output_max: u64,
    pub rings: UsageRings,
}

/// What the usage depends on besides the view and the thread.
pub struct UsageContext {
    pub native_is_grok_build_profile: bool,
    /// The size of the context of the native model.
    pub model_max_tokens: Option<u64>,
    /// Whether the native model counts input and output apart.
    pub supports_split_token_display: bool,
    /// The most tokens that the native model gives out.
    pub max_output_tokens: Option<u64>,
}

/// The most output tokens.
pub open spec fn output_limit(context: UsageContext) -> u64 {
    match context.max_output_tokens {
        Some(max) => max,
        None => 0,
    }
}

/// The most input tokens: what the output leaves of the context.
pub open spec fn input_limit(usage: TokenUsage, context: UsageContext) -> u64 {
    if usage.max_tokens > output_limit(context) {
        (usage.max_tokens - output_limit(context)) as u64
    } else {
        0
    }
}

/// The usage that is drawn: the effective one, else what the thread reports.
pub open spec fn drawn_usage(
    view: ThreadView,
    thread: AcpThread,
    context: UsageContext,
) -> Option<TokenUsage> {
    match effective_usage(
        thread.token_usage,
        thread_view::is_grok(view.agent_id@, context.native_is_grok_build_profile),
        context.model_max_tokens,
    ) {
        Some(usage) => Some(usage),
        None => thread.token_usage,
    }
}

/// The usage of a thread as it is drawn.
pub open spec fn usage_view(usage: TokenUsage, context: UsageContext) -> TokenUsageView {
    TokenUsageView {
        usage,
        input_max: input_limit(usage, context),
        output_max: output_limit(context),
        rings: if context.supports_split_token_display {
            UsageRings::Split {
                input: Ring { value: usage.input_tokens, max: input_limit(usage, context) },
                output: Ring { value: usage.output_tokens, max: output_limit(context) },
            }
        } else {
            UsageRings::Whole(Ring { value: usage.used_tokens, max: usage.max_tokens })
        },
    }
}

/// The usage of a view as it is drawn, where there is one.
pub open spec fn drawn_view(
    view: ThreadView,
    thread: AcpThread,
    context: UsageContext,
) -> Option<TokenUsageView> {
    match drawn_usage(view, thread, context) {
        Some(usage) => Some(usage_view(usage, context)),
        None => None,
    }
}

/// The tooltip of the usage. The numbers are in words.
pub struct TokenUsageTooltip {
    pub percentage: String,
    pub used: String,
    pub max: String,
    pub input_tokens: String,
    pub output_tokens: String,
    pub input_max: String,
    pub output_max: String,
    pub show_split: bool,
    pub cost_label: Option<String>,
    pub global_agents_md_loaded: bool,
    pub project_rules_count: usize,
    /// The rules files of the project.
    pub project_entry_ids: Vec<u64>,
}

/// The numbers of a usage in words.
pub struct UsageTexts<'a> {
    pub percentage: &'a str,
    pub used: &'a str,
    pub max: &'a str,
    pub input_tokens: &'a str,
    pub output_tokens: &'a str,
    pub input_max: &'a str,
    pub output_max: &'a str,
}

/// What the tooltip of the usage depends on besides the usage.
pub struct TooltipContext<'a> {
    pub texts: UsageTexts<'a>,
    /// Whether costs are shown.
    pub has_beta_flag: bool,
    /// The cost of the thread in words, where it is known.
    pub cost: Option<&'a str>,
    pub global_agents_md_loaded: bool,
    /// The rules file of each worktree of a native thread, where the worktree has one.
    pub rules_files: Option<&'a Vec<Option<u64>>>,
}

/// The rules files that there are, in the order of the worktrees.
pub open spec fn present_files(files: Seq<Option<u64>>) -> Seq<u64>
    decreases files.len(),
{
    if files.len() == 0 {
        seq![]
    } else {
        match files.last() {
            Some(file) => present_files(files.drop_last()).push(file),
            None => present_files(files.drop_last()),
        }
    }
}

/// What the tooltip of a usage says.
pub open spec fn tooltip_describes(
    tooltip: TokenUsageTooltip,
    view: TokenUsageView,
    context: TooltipContext,
) -> bool {
    &&& tooltip.percentage@ == context.texts.percentage@
    &&& tooltip.used@ == context.texts.used@
    &&& tooltip.max@ == context.texts.max@
    &&& tooltip.input_tokens@ == context.texts.input_tokens@
    &&& tooltip.output_tokens@ == context.texts.output_tokens@
    &&& tooltip.input_max@ == context.texts.input_max@
    &&& tooltip.output_max@ == context.texts.output_max@
    &&& tooltip.show_split == (view.rings is Split)
    &&& text::optional_view(tooltip.cost_label) == (if context.has_beta_flag {
        text::reference_view(context.cost)
    } else {
        None
    })
    &&& tooltip.global_agents_md_loaded == context.global_agents_md_loaded
    &&& tooltip.project_entry_ids@ == (match context.rules_files {
        Some(files) => present_files(files@),
        None => seq![],
    })
    &&& tooltip.project_rules_count == tooltip.project_entry_ids@.len()
}

fn collect_present_files(files: &Vec<Option<u64>>) -> (r: Vec<u64>)
    ensures
        r@ == present_files(files@),
{
    let mut present: Vec<u64> = Vec::new();
    let mut i: usize = 0;
    while i < files.len()
        invariant
            i <= files@.len(),
            present@ == present_files(files@.take(i as int)),
        decreases files@.len() - i,
    {
        assert(files@.take(i + 1).drop_last() == files@.take(i as int));
        if let Some(file) = files[i] {
            present.push(file);
        }
        i = i + 1;
    }
    assert(files@.take(i as int) == files@);
    present
}

impl TokenUsageView {
    /// The tooltip of the usage.
    pub fn tooltip(&self, context: &TooltipContext) -> (r: TokenUsageTooltip)
        ensures
            tooltip_describes(r, *self, *context),
    {
        let project_entry_ids: Vec<u64> = match context.rules_files {
            Some(files) => collect_present_files(files),
            None => Vec::new(),
        };
        let cost_label = match context.cost {
            Some(cost) => if context.has_beta_flag {
                Some(cost.to_string())
            } else {
                None
            },
            None => None,
        };
        TokenUsageTooltip {
            percentage: context.texts.percentage.to_string(),
            used: context.texts.used.to_string(),
            max: context.texts.max.to_string(),
            input_tokens: context.texts.input_tokens.to_string(),
            output_tokens: context.texts.output_tokens.to_string(),
            input_max: context.texts.input_max.to_string(),
            output_max: context.texts.output_max.to_string(),
            show_split: matches!(self.rings, UsageRings::Split { .. }),
            cost_label,
            global_agents_md_loaded: context.global_agents_md_loaded,
            project_rules_count: project_entry_ids.len(),
            project_entry_ids,
        }
    }
}

/// The lines of the tooltip about the context.
pub enum ContextLines {
    Whole { percentage: String, usage: String },
    Split { input: String, output: String },
}

/// The tooltip of the usage, ready to be drawn.
pub struct UsageTooltipView {
    pub context: ContextLines,
    pub cost: Option<String>,
    /// The buttons that open the rules of the user and of the project.
    pub global_rules: Option<&'static str>,
    pub project_rules: Option<String>,
    pub has_rules: bool,
}

/// What the tooltip of the usage shows.
pub open spec fn usage_tooltip_shows(shown: UsageTooltipView, tooltip: TokenUsageTooltip) -> bool {
    &&& match shown.context {
        ContextLines::Whole { percentage, usage } => !tooltip.show_split && percentage@
            == tooltip.percentage@ && usage@ == tooltip.used@ + "/"@ + tooltip.max@,
        ContextLines::Split { input, output } => tooltip.show_split && input@
            == tooltip.input_tokens@ + "/"@ + tooltip.input_max@ && output@
            == tooltip.output_tokens@ + "/"@ + tooltip.output_max@,
    }
    &&& text::optional_view(shown.cost) == text::optional_view(tooltip.cost_label)
    &&& text::reference_view(shown.global_rules) == (if tooltip.global_agents_md_loaded {
        Some("1 global rule"@)
    } else {
        None
    })
    &&& text::optional_view(shown.project_rules) == (if tooltip.project_rules_count > 0 {
        Some(text::decimal(tooltip.project_rules_count as nat) + " project rules"@)
    } else {
        None
    })
    &&& shown.has_rules == (tooltip.global_agents_md_loaded || tooltip.project_rules_count > 0)
}

impl TokenUsageTooltip {
    /// The tooltip, ready to be drawn.
    pub fn render(&self) -> (r: UsageTooltipView)
        ensures
            usage_tooltip_shows(r, *self),
    {
        let context = if self.show_split {
            ContextLines::Split {
                input: text::concat3(self.input_tokens.as_str(), "/", self.input_max.as_str()),
                output: text::concat3(self.output_tokens.as_str(), "/", self.output_max.as_str()),
            }
        } else {
            ContextLines::Whole {
                percentage: self.percentage.clone(),
                usage: text::concat3(self.used.as_str(), "/", self.max.as_str()),
            }
        };
        let global_rules: Option<&'static str> = if self.global_agents_md_loaded {
            Some("1 global rule")
        } else {
            None
        };
        let project_rules = if self.project_rules_count > 0 {
            Some(
                text::concat2(text::count(self.project_rules_count).as_str(), " project rules"),
            )
        } else {
            None
        };
        UsageTooltipView {
            context,
            cost: text::copy_option(&self.cost_label),
            global_rules,
            project_rules,
            has_rules: self.global_agents_md_loaded || self.project_rules_count > 0,
        }
    }
}

impl ThreadView {
    /// The usage that is shown for the build agent.
    pub fn grok_effective_token_usage(
        &self,
        thread: &AcpThread,
        native_is_grok_build_profile: bool,
        model_max_tokens: Option<u64>,
    ) -> (r: Option<TokenUsage>)
        ensures
            r == effective_usage(
                thread.token_usage,
                thread_view::is_grok(self.agent_id@, native_is_grok_build_profile),
                model_max_tokens,
            ),
    {
        if let Some(usage) = thread.token_usage {
            if usage.max_tokens > 0 {
                return Some(usage);
            }
        }
        if !self.is_grok_build_profile(native_is_grok_build_profile) {
            return None;
        }
        let max: u64 = match model_max_tokens {
            Some(max) => if max > 0 {
                max
            } else {
                GROK_DEFAULT_MAX_CONTEXT
            },
            None => GROK_DEFAULT_MAX_CONTEXT,
        };
        Some(
            TokenUsage {
                used_tokens: 0,
                max_tokens: max,
                max_output_tokens: Some(max),
                input_tokens: 0,
                output_tokens: 0,
            },
        )
    }

    /// The number of what the ring of the thread shows.
    pub fn current_ring_visual_bucket(&self, thread: &AcpThread, percent: u32) -> (r: u32)
        requires
            has_bucket(thread.active_subagent_count as nat),
        ensures
            r == bucket(
                zone(counted_percent(thread.token_usage, percent)),
                thread.active_subagent_count as nat,
                thread.has_outstanding_todos,
            ),
    {
        ring_visual_bucket(
            thread.token_usage.as_ref(),
            percent,
            thread.active_subagent_count,
            thread.has_outstanding_todos,
        )
    }

    /// The usage of the thread as it is drawn.
    pub fn render_token_usage(&self, thread: &AcpThread, context: &UsageContext) -> (r: Option<
        TokenUsageView,
    >)
        ensures
            r == drawn_view(*self, *thread, *context),
    {
        let effective = self.grok_effective_token_usage(
            thread,
            context.native_is_grok_build_profile,
            context.model_max_tokens,
        );
        let usage = match effective {
            Some(usage) => usage,
            None => match thread.token_usage {
                Some(usage) => usage,
                None => {
                    return None;
                },
            },
        };
        let output_max: u64 = match context.max_output_tokens {
            Some(max) => max,
            None => 0,
        };
        let input_max = usage.max_tokens.saturating_sub(output_max);
        let rings = if context.supports_split_token_display {
            UsageRings::Split {
                input: Ring { value: usage.input_tokens, max: input_max },
                output: Ring { value: usage.output_tokens, max: output_max },
            }
        } else {
            UsageRings::Whole(Ring { value: usage.used_tokens, max: usage.max_tokens })
        };
        Some(TokenUsageView { usage, input_max, output_max, rings })
    }
}

/// The build agent always has a ring with a size, whatever its thread reports.
pub proof fn the_build_agent_always_has_a_ring(
    reported: Option<TokenUsage>,
    model_max_tokens: Option<u64>,
)
    ensures
        effective_usage(reported, true, model_max_tokens) matches Some(usage) && usage.max_tokens
            > 0,
{
}

/// What a thread reports is shown where it knows the size of its context. Else only the build
/// agent shows a usage: an empty context of the size of its model, or of a million tokens.
pub proof fn usage_is_shown_as_reported_or_empty(
    reported: Option<TokenUsage>,
    is_grok: bool,
    model_max_tokens: Option<u64>,
)
    ensures
        reported is Some && reported->0.max_tokens > 0 ==> effective_usage(
            reported,
            is_grok,
            model_max_tokens,
        ) == reported,
        (reported is None || reported->0.max_tokens == 0) && !is_grok ==> effective_usage(
            reported,
            is_grok,
            model_max_tokens,
        ) is None,
        (reported is None || reported->0.max_tokens == 0) && is_grok ==> (effective_usage(
            reported,
            is_grok,
            model_max_tokens,
        ) matches Some(usage) && {
            &&& usage.used_tokens == 0 && usage.input_tokens == 0 && usage.output_tokens == 0
            &&& usage.max_output_tokens == Some(usage.max_tokens)
            &&& model_max_tokens is Some && model_max_tokens->0 > 0 ==> usage.max_tokens
                == model_max_tokens->0
            &&& model_max_tokens is None || model_max_tokens->0 == 0 ==> usage.max_tokens
                == 1_000_000
        }),
{
}

/// The zones of the ring change at half and at nine tenths of the context, and grow with it.
pub proof fn zones_change_at_half_and_nine_tenths(first: u32, second: u32)
    ensures
        zone(first) == 0 <==> first < 50,
        zone(first) == 1 <==> 50 <= first < 90,
        zone(first) == 2 <==> first >= 90,
        first <= second ==> zone(first) <= zone(second),
{
}

/// A share counts only where the size of the context is known.
pub proof fn a_share_counts_with_a_size(usage: TokenUsage, percent: u32)
    ensures
        counted_percent(None, percent) == 0,
        usage.max_tokens == 0 ==> counted_percent(Some(usage), percent) == 0,
        usage.max_tokens > 0 ==> counted_percent(Some(usage), percent) == percent,
{
}

/// Up to a thousand subagents the number of the ring can be read off: the zone stands in the ten
/// thousands, the subagents in the tens, and the last digit tells of outstanding todos.
pub proof fn the_number_of_the_ring_can_be_read_off(zone: nat, subagents: nat, todos: bool)
    requires
        zone <= 2,
        subagents < 1000,
    ensures
        bucket(zone, subagents, todos) / 10000 == zone,
        bucket(zone, subagents, todos) % 10000 / 10 == subagents,
        bucket(zone, subagents, todos) % 10 == 1 <==> todos,
        bucket(zone, subagents, todos) % 10 == 0 <==> !todos,
        has_bucket(subagents),
{
}

/// There is a number for every count that the ring can show, and the numbers fit.
pub proof fn numbers_of_the_ring_fit(zone: nat, subagents: nat, todos: bool)
    requires
        zone <= 2,
        has_bucket(subagents),
    ensures
        bucket(zone, subagents, todos) <= u32::MAX,
        subagents >= 1000 ==> bucket(zone, subagents, todos) >= 30000,
{
}

/// The label of the ring counts the subagents, where there are any. Without them it is idle
/// exactly where no todos are outstanding; else it warns of the compaction from half of the
/// context on.
pub proof fn the_ring_says_what_the_agent_does(subagents: nat, todos: bool, percent: u32)
    ensures
        ({
            let (label, color) = status_label(subagents, todos, percent);
            &&& subagents > 0 ==> label == text::decimal(subagents) + " sub-agents"@ && color
                == Color::Accent
            &&& subagents == 0 && !todos ==> label == "Idle"@ && color == Color::Muted
            &&& subagents == 0 && todos && percent >= 50 ==> label == "Compaction risk"@ && color
                == Color::Warning
            &&& subagents == 0 && todos && percent < 50 ==> label == "Working"@ && color
                == Color::Warning
        }),
{
}

/// The label of a share is the share in percent; from half of the context on it is imminent. Its
/// colour warns from there on, and is that of an error from nine tenths on.
pub proof fn shares_warn_as_they_grow(percent: u32)
    ensures
        percent < 50 ==> percent_label(percent) == (
            text::decimal(percent as nat) + "%"@,
            Color::Muted,
        ),
        50 <= percent < 90 ==> percent_label(percent) == (
            text::decimal(percent as nat) + "% imminent"@,
            Color::Warning,
        ),
        percent >= 90 ==> percent_label(percent) == (
            text::decimal(percent as nat) + "% imminent"@,
            Color::Error,
        ),
{
}

/// The input may use what the output leaves of the context.
pub proof fn input_and_output_share_the_context(usage: TokenUsage, context: UsageContext, max: u64)
    ensures
        context.max_output_tokens == Some(max) ==> output_limit(context) == max,
        context.max_output_tokens is None ==> output_limit(context) == 0 && input_limit(
            usage,
            context,
        ) == usage.max_tokens,
        output_limit(context) <= usage.max_tokens ==> input_limit(usage, context) + output_limit(
            context,
        ) == usage.max_tokens,
        output_limit(context) > usage.max_tokens ==> input_limit(usage, context) == 0,
{
}

/// The rings show the tokens that are used of those there are: input and output apart where the
/// model counts them apart, else all together.
pub proof fn rings_show_the_tokens(view: ThreadView, thread: AcpThread, context: UsageContext)
    ensures
        thread.token_usage is Some && thread.token_usage->0.max_tokens > 0 ==> (drawn_view(
            view,
            thread,
            context,
        ) matches Some(shown) && shown.usage == thread.token_usage->0),
        drawn_view(view, thread, context) is None ==> thread.token_usage is None,
        view.agent_id@ == "grok"@ || context.native_is_grok_build_profile ==> drawn_view(
            view,
            thread,
            context,
        ) is Some,
        !(view.agent_id@ == "grok"@ || context.native_is_grok_build_profile) ==> (drawn_view(
            view,
            thread,
            context,
        ) is Some <==> thread.token_usage is Some),
        drawn_view(view, thread, context) matches Some(shown) ==> {
            &&& shown.output_max == output_limit(context)
            &&& shown.input_max == input_limit(shown.usage, context)
            &&& shown.rings is Split <==> context.supports_split_token_display
            &&& match shown.rings {
                UsageRings::Whole(ring) => ring.value == shown.usage.used_tokens && ring.max
                    == shown.usage.max_tokens,
                UsageRings::Split { input, output } => input.value == shown.usage.input_tokens
                    && output.value == shown.usage.output_tokens && input.max == shown.input_max
                    && output.max == shown.output_max,
            }
        },
{
}

/// The rules files that there are come worktree by worktree.
pub proof fn rules_files_come_one_by_one(
    first: Seq<Option<u64>>,
    second: Seq<Option<u64>>,
    file: u64,
)
    ensures
        present_files(first + second) == present_files(first) + present_files(second),
        present_files(seq![Some(file)]) == seq![file],
        present_files(seq![None]).len() == 0,
    decreases second.len(),
{
    reveal_with_fuel(present_files, 3);
    assert(seq![Some(file)].drop_last() =~= seq![]);
    assert(present_files(seq![Some(file)]) =~= seq![file]);
    assert(seq![None::<u64>].drop_last() =~= seq![]);
    if second.len() > 0 {
        rules_files_come_one_by_one(first, second.drop_last(), file);
        assert((first + second).drop_last() =~= first + second.drop_last());
        assert((first + second).last() == second.last());
        assert(present_files(first + second) =~= present_files(first) + present_files(second));
    } else {
        assert(first + second =~= first);
        assert(present_files(first) + present_files(second) =~= present_files(first));
    }
}

/// The tooltip of a usage hands the numbers on as they are; costs come with the flag for them,
/// and the rules of the project are counted.
pub proof fn tooltips_hand_the_numbers_on(
    tooltip: TokenUsageTooltip,
    view: TokenUsageView,
    context: TooltipContext,
)
    requires
        tooltip_describes(tooltip, view, context),
    ensures
        tooltip.percentage@ == context.texts.percentage@,
        tooltip.used@ == context.texts.used@,
        tooltip.max@ == context.texts.max@,
        tooltip.input_tokens@ == context.texts.input_tokens@,
        tooltip.output_tokens@ == context.texts.output_tokens@,
        tooltip.input_max@ == context.texts.input_max@,
        tooltip.output_max@ == context.texts.output_max@,
        tooltip.show_split <==> view.rings is Split,
        tooltip.cost_label is Some <==> context.has_beta_flag && context.cost is Some,
        match (tooltip.cost_label, context.cost) {
            (Some(label), Some(cost)) => label@ == cost@,
            _ => true,
        },
        tooltip.global_agents_md_loaded == context.global_agents_md_loaded,
        tooltip.project_rules_count == tooltip.project_entry_ids@.len(),
        context.rules_files is None ==> tooltip.project_rules_count == 0,
        context.rules_files matches Some(files) ==> tooltip.project_entry_ids@ == present_files(
            files@,
        ),
{
}

/// The tooltip shows used and most tokens with a slash between them, and the rules that there
/// are.
pub proof fn tooltips_show_used_of_most(shown: UsageTooltipView, tooltip: TokenUsageTooltip)
    requires
        usage_tooltip_shows(shown, tooltip),
    ensures
        shown.context is Split <==> tooltip.show_split,
        match shown.context {
            ContextLines::Whole { percentage, usage } => percentage@ == tooltip.percentage@
                && usage@ == tooltip.used@ + seq!['/'] + tooltip.max@,
            ContextLines::Split { input, output } => input@ == tooltip.input_tokens@ + seq!['/']
                + tooltip.input_max@ && output@ == tooltip.output_tokens@ + seq!['/']
                + tooltip.output_max@,
        },
        shown.cost is Some <==> tooltip.cost_label is Some,
        shown.global_rules is Some <==> tooltip.global_agents_md_loaded,
        shown.project_rules is Some <==> tooltip.project_rules_count != 0,
        shown.project_rules matches Some(label) ==> label@ == text::decimal(
            tooltip.project_rules_count as nat,
        ) + " project rules"@,
        shown.has_rules <==> shown.global_rules is Some || shown.project_rules is Some,
{
    reveal_strlit("/");
    assert("/"@ =~= seq!['/']);
}

/// The tooltip speaks of the rules that are loaded, and of none that are not.
pub proof fn the_tooltip_speaks_of_the_rules(shown: UsageTooltipView, tooltip: TokenUsageTooltip)
    requires
        usage_tooltip_shows(shown, tooltip),
    ensures
        shown.global_rules is Some <==> tooltip.global_agents_md_loaded,
        shown.global_rules matches Some(words) ==> words@ == "1 global rule"@,
        shown.project_rules is Some <==> tooltip.project_rules_count != 0,
        shown.has_rules <==> shown.global_rules is Some || shown.project_rules is Some,
{
}

} // verus!
