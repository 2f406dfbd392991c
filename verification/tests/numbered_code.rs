use agent_ui::code_layout::{
    highlight_code_runs, render_cat_numbered_code_block, render_numbered_read_file_output,
    HighlightRange,
};
use agent_ui::model::{ApprovalRisk, ToolCall, ToolCallId, ToolCallStatus, ToolKind, ToolRisk};
use agent_ui::numbered_code::{
    parse_cat_numbered_code, parse_cat_numbered_line, parse_cat_numbered_markdown_code_block,
    parse_single_fenced_code_block, strip_line_ending,
};

#[test]
fn parses_cat_numbered_markdown_code_block() {
    let parsed = parse_cat_numbered_markdown_code_block(
        "```rs zed/crates/example.rs\n     2\tfn main() {\n     3\t    println!(\"hi\");\n     4\t}\n```\n",
    )
    .expect("cat-numbered block should parse");

    assert_eq!(parsed.line_count, 3);
    assert_eq!(parsed.first_number, 2);
    assert_eq!(parsed.code, "fn main() {\n    println!(\"hi\");\n}");
}

#[test]
fn parses_cat_numbered_code_with_crlf_line_endings() {
    let parsed = parse_cat_numbered_code("     1\tline one\r\n     2\tline two\r\n")
        .expect("crlf-terminated cat-numbered code should parse");

    assert_eq!(parsed.line_count, 2);
    assert_eq!(parsed.first_number, 1);
    assert_eq!(parsed.code, "line one\nline two");
}

#[test]
fn rejects_non_cat_numbered_code_block() {
    assert!(parse_cat_numbered_markdown_code_block("```rs\nfn main() {}\n```\n").is_none());
}

#[test]
fn rejects_non_contiguous_cat_numbers() {
    assert!(parse_cat_numbered_markdown_code_block(
        "```rs\n     2\tlet a = 1;\n     4\tlet b = 2;\n```\n"
    )
    .is_none());
}

#[test]
fn a_numbered_line_has_a_number_a_tab_and_a_text() {
    assert_eq!(parse_cat_numbered_line("    12\tlet é = \"→\";"), Some((12, "let é = \"→\";")));
    assert_eq!(parse_cat_numbered_line("    12\t"), Some((12, "")));
    assert_eq!(parse_cat_numbered_line("12\ta\tb"), Some((12, "a\tb")));
    assert_eq!(parse_cat_numbered_line("12 no tab"), None);
    assert_eq!(parse_cat_numbered_line("\tno number"), None);
    assert_eq!(parse_cat_numbered_line("x1\tnot a number"), None);
    assert_eq!(parse_cat_numbered_line("4294967295\tlast"), Some((u32::MAX, "last")));
    assert_eq!(parse_cat_numbered_line("4294967296\ttoo large"), None);
}

#[test]
fn line_endings_are_stripped_once() {
    assert_eq!(strip_line_ending("text\n"), "text");
    assert_eq!(strip_line_ending("text\r\n"), "text");
    assert_eq!(strip_line_ending("text\r"), "text");
    assert_eq!(strip_line_ending("text\n\n"), "text\n");
    assert_eq!(strip_line_ending("text"), "text");
}

#[test]
fn code_without_lines_is_not_numbered() {
    assert!(parse_cat_numbered_code("").is_none());
    assert!(parse_cat_numbered_code("plain").is_none());
}

#[test]
fn numbers_do_not_go_on_behind_the_largest_one() {
    assert!(parse_cat_numbered_code("4294967295\ta\n0\tb\n").is_none());
    assert!(parse_cat_numbered_code("4294967295\ta\n4294967295\tb\n").is_none());
    let parsed = parse_cat_numbered_code("4294967294\ta\n4294967295\tb\n").expect("contiguous");
    assert_eq!(parsed.first_number, 4294967294);
    assert_eq!(parsed.line_count, 2);
}

#[test]
fn fences_close_with_as_many_backticks() {
    assert_eq!(
        parse_single_fenced_code_block("````md\n```\ncode\n```\n````\n"),
        Some(("md", "```\ncode\n```"))
    );
    assert!(parse_single_fenced_code_block("``\ncode\n``\n").is_none());
    assert!(parse_single_fenced_code_block("```rs\ncode\n").is_none());
}

#[test]
fn the_gutter_lines_up() {
    let parsed = parse_cat_numbered_code("     9\ta\n    10\tb\n").expect("numbered");
    let block = render_cat_numbered_code_block(parsed, "copy-3-5".to_string());
    assert_eq!(block.gutter, " 9\n10");
    assert_eq!(block.code, "a\nb");
    assert_eq!(block.code_block_id, "read-file-code-block-copy-3-5");
    assert_eq!(block.code_scroll_id, "read-file-code-scroll-copy-3-5");
    assert_eq!(block.copy_button_id, "copy-3-5");
}

fn call(tool_name: Option<&str>) -> ToolCall {
    ToolCall {
        id: ToolCallId::new("call"),
        label: "Read a.rs".to_string(),
        kind: ToolKind::Read,
        status: ToolCallStatus::Completed,
        content: vec![],
        locations: vec![],
        tool_name: tool_name.map(str::to_string),
        raw_input_markdown: None,
        subagent_session_info: None,
        is_monitor: false,
        is_subagent: false,
        risk: ToolRisk {
            risk: ApprovalRisk::ReadOnly,
            display_label: "RO".to_string(),
            is_externally_destructive: false,
        },
    }
}

#[test]
fn output_of_a_read_is_numbered_only_for_the_tool_that_reads() {
    let markdown = "```rs a.rs\n     1\tfn main() {}\n```\n";
    let block = render_numbered_read_file_output(markdown, 4, 1, &call(Some("read_file")))
        .expect("numbered");
    assert_eq!(block.gutter, "1");
    assert_eq!(block.code, "fn main() {}");
    assert_eq!(block.copy_button_id, "copy-read-file-output-4-1");
    assert!(render_numbered_read_file_output(markdown, 4, 1, &call(Some("terminal"))).is_none());
    assert!(render_numbered_read_file_output(markdown, 4, 1, &call(None)).is_none());
    assert!(render_numbered_read_file_output("plain", 4, 1, &call(Some("read_file"))).is_none());
}

#[test]
fn runs_cover_the_code_in_order() {
    let ranges = vec![
        HighlightRange { start: 2, end: 4, highlight: 7 },
        HighlightRange { start: 4, end: 5, highlight: 8 },
        HighlightRange { start: 6, end: 9, highlight: 9 },
    ];
    let runs = highlight_code_runs(10, Some(&ranges));
    let lengths: Vec<usize> = runs.iter().map(|run| run.len).collect();
    assert_eq!(lengths, vec![2, 2, 1, 1, 3, 1]);
    let highlights: Vec<Option<u32>> = runs.iter().map(|run| run.highlight).collect();
    assert_eq!(highlights, vec![None, Some(7), Some(8), None, Some(9), None]);
    assert!(highlight_code_runs(0, Some(&ranges)).is_empty());

    let plain = highlight_code_runs(10, None);
    assert_eq!(plain.len(), 1);
    assert_eq!(plain[0].len, 10);
}
