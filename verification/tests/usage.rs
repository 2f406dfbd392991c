use agent_ui::model::{Color, TokenUsage};
use agent_ui::usage::{
    ring_has_bucket, ring_status_label, ring_visual_bucket, usage_imminent_label, ContextLines,
    Ring, TokenUsageTooltip, TokenUsageView, TooltipContext, UsageRings, UsageTexts,
};

fn percent(usage: &TokenUsage) -> u32 {
    if usage.max_tokens > 0 {
        ((usage.used_tokens as f64 / usage.max_tokens as f64) * 100.0) as u32
    } else {
        0
    }
}

fn status(subagents: usize, todos: bool, usage: Option<&TokenUsage>) -> (String, Color) {
    ring_status_label(subagents, todos, usage, usage.map_or(0, percent))
}

fn bucket(usage: Option<&TokenUsage>, subagents: usize, todos: bool) -> u32 {
    ring_visual_bucket(usage, usage.map_or(0, percent), subagents, todos)
}

fn imminent(usage: &TokenUsage) -> Option<(String, Color)> {
    usage_imminent_label(usage, percent(usage))
}

#[test]
fn context_ring_labels_and_colors_are_fully_specified_by_tdd_for_every_user_visible_string() {
    // Idle
    let (label, color) = status(0, false, None);
    assert_eq!(label, "Idle");
    assert_eq!(color, Color::Muted);

    // Sub-agents active
    let (label, color) = status(2, false, None);
    assert_eq!(label, "2 sub-agents");
    assert_eq!(color, Color::Accent);

    // Compaction risk (>= 50%): shown when there are outstanding todos (so not idle) but no sub-agents
    let u = TokenUsage { used_tokens: 60, max_tokens: 100, ..Default::default() };
    let (label, color) = status(0, true, Some(&u));
    assert_eq!(label, "Compaction risk");
    assert_eq!(color, Color::Warning);

    // Working (low usage, activity present via todos but no sub-agents)
    let u = TokenUsage { used_tokens: 10, max_tokens: 100, ..Default::default() };
    let (label, _) = status(0, true, Some(&u));
    assert_eq!(label, "Working");

    // usage_imminent_label branches
    let u_low = TokenUsage { used_tokens: 40, max_tokens: 100, ..Default::default() };
    let (text, col) = imminent(&u_low).unwrap();
    assert_eq!(text, "40%");
    assert_eq!(col, Color::Muted);

    let u_imminent = TokenUsage { used_tokens: 55, max_tokens: 100, ..Default::default() };
    let (text, col) = imminent(&u_imminent).unwrap();
    assert_eq!(text, "55% imminent");
    assert_eq!(col, Color::Warning);

    let u_red = TokenUsage { used_tokens: 92, max_tokens: 100, ..Default::default() };
    let (text, col) = imminent(&u_red).unwrap();
    assert_eq!(text, "92% imminent");
    assert_eq!(col, Color::Error);

    // No max_tokens -> no imminent label
    let u_none = TokenUsage { used_tokens: 10, max_tokens: 0, ..Default::default() };
    assert!(imminent(&u_none).is_none());
}

#[test]
fn ring_visual_bucket_is_stable_within_thresholds_and_only_changes_on_real_visual_crossings() {
    let low = TokenUsage { used_tokens: 1200, max_tokens: 4000, ..Default::default() };
    let mid = TokenUsage { used_tokens: 2200, max_tokens: 4000, ..Default::default() };
    let high = TokenUsage { used_tokens: 3700, max_tokens: 4000, ..Default::default() };

    // < 50% is bucket 0xxx
    assert_eq!(bucket(Some(&low), 0, false), 0);
    assert_eq!(bucket(Some(&low), 3, true), 31);

    // 50-89% is bucket 1xxx
    assert_eq!(bucket(Some(&mid), 0, false), 10000);
    assert_eq!(bucket(Some(&mid), 1, false), 10010);

    // >= 90% is bucket 2xxx
    assert_eq!(bucket(Some(&high), 0, false), 20000);
    assert_eq!(bucket(Some(&high), 0, true), 20001);

    // Sub-agent count and todos flag flip the bucket even at same pct
    assert_ne!(bucket(Some(&low), 0, false), bucket(Some(&low), 1, false));
    assert_ne!(bucket(Some(&mid), 0, false), bucket(Some(&mid), 0, true));

    // No usage is treated as 0% (stable idle bucket)
    assert_eq!(bucket(None, 0, false), 0);
    assert_eq!(bucket(None, 5, true), 51);
}

#[test]
fn a_usage_without_a_size_counts_as_nothing() {
    let usage = TokenUsage { used_tokens: 10, max_tokens: 0, ..Default::default() };
    assert_eq!(ring_visual_bucket(Some(&usage), 95, 0, false), 0);
    let (label, _) = ring_status_label(0, true, Some(&usage), 95);
    assert_eq!(label, "Working");
}

#[test]
fn zones_begin_at_their_share() {
    let usage = TokenUsage { used_tokens: 1, max_tokens: 2, ..Default::default() };
    assert_eq!(ring_visual_bucket(Some(&usage), 49, 0, false), 0);
    assert_eq!(ring_visual_bucket(Some(&usage), 50, 0, false), 10000);
    assert_eq!(ring_visual_bucket(Some(&usage), 89, 0, false), 10000);
    assert_eq!(ring_visual_bucket(Some(&usage), 90, 0, false), 20000);
    assert_eq!(usage_imminent_label(&usage, 49), Some(("49%".to_string(), Color::Muted)));
    assert_eq!(usage_imminent_label(&usage, 50), Some(("50% imminent".to_string(), Color::Warning)));
    assert_eq!(usage_imminent_label(&usage, 90), Some(("90% imminent".to_string(), Color::Error)));
}

#[test]
fn every_look_of_the_ring_has_its_own_number() {
    let usage = TokenUsage { max_tokens: 100, ..TokenUsage::default() };
    let mut seen = std::collections::HashSet::new();
    for count in [0, 1, 999, 1000, 1001, 2000, 4000, 715_823_881] {
        for percent in [10, 60, 95] {
            for todos in [false, true] {
                assert!(seen.insert(ring_visual_bucket(Some(&usage), percent, count, todos)));
            }
        }
    }
    assert_eq!(ring_visual_bucket(None, 0, 1000, false), 30000);
    assert!(ring_has_bucket(715_823_881));
    assert!(!ring_has_bucket(715_823_882));
}

fn tooltip(show_split: bool) -> TokenUsageTooltip {
    TokenUsageTooltip {
        percentage: "12%".to_string(),
        used: "1k".to_string(),
        max: "10k".to_string(),
        input_tokens: "700".to_string(),
        output_tokens: "300".to_string(),
        input_max: "8k".to_string(),
        output_max: "2k".to_string(),
        show_split,
        cost_label: None,
        global_agents_md_loaded: false,
        project_rules_count: 0,
        project_entry_ids: vec![],
    }
}

#[test]
fn the_tooltip_lists_the_rules_files_that_there_are() {
    let ring = Ring { value: 10, max: 100 };
    let view = TokenUsageView {
        usage: TokenUsage {
            used_tokens: 10,
            max_tokens: 100,
            max_output_tokens: None,
            input_tokens: 7,
            output_tokens: 3,
        },
        input_max: 80,
        output_max: 20,
        rings: UsageRings::Split { input: ring, output: ring },
    };
    let files = vec![Some(4), None, Some(2)];
    let mut context = TooltipContext {
        texts: UsageTexts {
            percentage: "10%",
            used: "10",
            max: "100",
            input_tokens: "7",
            output_tokens: "3",
            input_max: "80",
            output_max: "20",
        },
        has_beta_flag: false,
        cost: Some("0.0012 USD"),
        global_agents_md_loaded: true,
        rules_files: Some(&files),
    };
    let tooltip = view.tooltip(&context);
    assert!(tooltip.show_split && tooltip.global_agents_md_loaded);
    assert_eq!(tooltip.project_entry_ids, vec![4, 2]);
    assert_eq!(tooltip.project_rules_count, 2);
    assert_eq!(tooltip.cost_label, None);
    assert_eq!((tooltip.input_max.as_str(), tooltip.output_max.as_str()), ("80", "20"));
    context.has_beta_flag = true;
    context.rules_files = None;
    let whole = TokenUsageView { rings: UsageRings::Whole(ring), ..view };
    let tooltip = whole.tooltip(&context);
    assert!(!tooltip.show_split);
    assert_eq!(tooltip.cost_label.as_deref(), Some("0.0012 USD"));
    assert_eq!(tooltip.project_rules_count, 0);
}

#[test]
fn the_tooltip_splits_input_from_output_where_asked_to() {
    let whole = tooltip(false).render();
    match whole.context {
        ContextLines::Whole { percentage, usage } => {
            assert_eq!(percentage, "12%");
            assert_eq!(usage, "1k/10k");
        }
        ContextLines::Split { .. } => panic!("not split"),
    }
    assert!(!whole.has_rules);
    assert!(whole.cost.is_none());

    let mut split = tooltip(true);
    split.cost_label = Some("$0.10".to_string());
    split.global_agents_md_loaded = true;
    split.project_rules_count = 2;
    let split = split.render();
    match split.context {
        ContextLines::Split { input, output } => {
            assert_eq!(input, "700/8k");
            assert_eq!(output, "300/2k");
        }
        ContextLines::Whole { .. } => panic!("split"),
    }
    assert_eq!(split.cost.as_deref(), Some("$0.10"));
    assert_eq!(split.global_rules, Some("1 global rule"));
    assert_eq!(split.project_rules.as_deref(), Some("2 project rules"));
    assert!(split.has_rules);
}
