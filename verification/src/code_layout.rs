//! Laying out a numbered code block: its gutter and the runs of its highlighting.

use crate::model::ToolCall;
use crate::numbered_code;
use crate::numbered_code::ParsedCatNumberedCode;
use crate::text;
use vstd::prelude::*;
use vstd::string::*;

verus! {

/// A numbered code block, ready to be drawn.
pub struct NumberedCodeBlock {
    pub gutter: String,
    pub code: String,
    pub code_block_id: String,
    pub code_scroll_id: String,
    pub copy_button_id: String,
}

/// The number of the line with index `i`, at most the largest number that fits.
pub open spec fn number_at(first: u32, i: nat) -> nat {
    if first + i <= u32::MAX {
        first as nat + i
    } else {
        u32::MAX as nat
    }
}

/// The number of digits of the last line number.
pub open spec fn gutter_width(first: u32, count: nat) -> nat {
    text::decimal(
        number_at(
            first,
            if count > 0 {
                (count - 1) as nat
            } else {
                0
            },
        ),
    ).len()
}

/// `s` with spaces in front, so that it has at least `width` characters.
pub open spec fn right_aligned(s: Seq<char>, width: nat) -> Seq<char> {
    if s.len() < width {
        numbered_code::spaces((width - s.len()) as nat) + s
    } else {
        s
    }
}

/// The line numbers of the gutter, one on each line.
pub open spec fn gutter_lines(first: u32, count: nat) -> Seq<Seq<char>> {
    Seq::new(
        count,
        |i: int|
            right_aligned(text::decimal(number_at(first, i as nat)), gutter_width(first, count)),
    )
}

/// The gutter of a block with `count` lines.
pub open spec fn gutter(first: u32, count: nat) -> Seq<char> {
    text::joined(gutter_lines(first, count), "\n"@)
}

/// A larger number has no fewer digits.
pub proof fn larger_numbers_have_no_fewer_digits(a: nat, b: nat)
    requires
        a <= b,
    ensures
        text::decimal(a).len() <= text::decimal(b).len(),
    decreases b,
{
    if b >= 10 {
        if a >= 10 {
            larger_numbers_have_no_fewer_digits(a / 10, b / 10);
        } else {
            numbered_code::decimal_numeral_stands_for_its_number(b / 10);
        }
    }
}

/// Every line of the gutter has exactly as many characters as the last number.
pub proof fn gutter_lines_have_the_same_width(first: u32, count: nat, i: int)
    requires
        0 <= i < count,
    ensures
        gutter_lines(first, count)[i].len() == gutter_width(first, count),
{
    larger_numbers_have_no_fewer_digits(
        number_at(first, i as nat),
        number_at(first, (count - 1) as nat),
    );
}

fn saturating_line_number(first: u32, i: usize) -> (r: u32)
    ensures
        r == number_at(first, i as nat),
{
    let step: u32 = if i as u64 <= 0xffff_ffff {
        i as u32
    } else {
        0xffff_ffff
    };
    first.saturating_add(step)
}

fn aligned_number(n: u32, width: usize) -> (r: String)
    ensures
        r@ == right_aligned(text::decimal(n as nat), width as nat),
{
    let numeral = text::number(n as u64);
    let length = numeral.as_str().unicode_len();
    let mut r = String::new();
    let mut i: usize = length;
    assert(r@ =~= numbered_code::spaces(0));
    while i < width
        invariant
            numeral@ == text::decimal(n as nat),
            length == numeral@.len(),
            length <= i,
            i <= width || i == length,
            r@ == numbered_code::spaces((i - length) as nat),
        decreases width - i,
    {
        proof {
            reveal_strlit(" ");
        }
        r.append(" ");
        i = i + 1;
        assert(r@ =~= numbered_code::spaces((i - length) as nat));
    }
    r.append(numeral.as_str());
    assert(r@ =~= right_aligned(text::decimal(n as nat), width as nat));
    r
}

/// The block with its gutter and the identifiers of its parts.
pub fn render_cat_numbered_code_block(
    parsed: ParsedCatNumberedCode,
    copy_button_id: String,
) -> (r: NumberedCodeBlock)
    ensures
        r.gutter@ == gutter(parsed.first_number, parsed.line_count as nat),
        r.code@ == parsed.code@,
        r.code_block_id@ == "read-file-code-block-"@ + copy_button_id@,
        r.code_scroll_id@ == "read-file-code-scroll-"@ + copy_button_id@,
        r.copy_button_id@ == copy_button_id@,
{
    let first = parsed.first_number;
    let count = parsed.line_count;
    let last_index: usize = if count > 0 {
        count - 1
    } else {
        0
    };
    let last = saturating_line_number(first, last_index);
    let width = text::number(last as u64).as_str().unicode_len();
    let mut lines: Vec<String> = Vec::new();
    let mut i: usize = 0;
    while i < count
        invariant
            i <= count,
            lines@.len() == i,
            width == gutter_width(first, count as nat),
            forall|j: int|
                0 <= j < i ==> (#[trigger] lines@[j])@ == gutter_lines(first, count as nat)[j],
        decreases count - i,
    {
        let number = saturating_line_number(first, i);
        lines.push(aligned_number(number, width));
        i = i + 1;
    }
    assert(text::views(lines@) =~= gutter_lines(first, count as nat));
    NumberedCodeBlock {
        gutter: text::join(&lines, "\n"),
        code: parsed.code,
        code_block_id: text::concat2("read-file-code-block-", copy_button_id.as_str()),
        code_scroll_id: text::concat2("read-file-code-scroll-", copy_button_id.as_str()),
        copy_button_id,
    }
}

/// Whether this is the numbered code block of a call's output: there is one where the call is
/// of the tool that reads files and its output is numbered.
pub open spec fn numbered_output_is(
    output: Option<NumberedCodeBlock>,
    markdown: Seq<char>,
    entry_ix: usize,
    context_ix: usize,
    tool_call: ToolCall,
) -> bool {
    let is_numbered = text::optional_view(tool_call.tool_name) == Some("read_file"@)
        && numbered_code::numbered_code_block(markdown) is Some;
    let id = "copy-read-file-output-"@ + text::decimal(entry_ix as nat) + "-"@ + text::decimal(
        context_ix as nat,
    );
    match (output, numbered_code::numbered_code_block(markdown)) {
        (Some(block), Some((code, first, count))) => {
            &&& is_numbered
            &&& block.gutter@ == gutter(first as u32, count)
            &&& block.code@ == code
            &&& block.code_block_id@ == "read-file-code-block-"@ + id
            &&& block.code_scroll_id@ == "read-file-code-scroll-"@ + id
            &&& block.copy_button_id@ == id
        },
        (Some(_), None) => false,
        (None, _) => !is_numbered,
    }
}

/// The output of the tool that reads files as a numbered code block. `None` where the
/// call is of another tool or its output is no numbered code block.
pub fn render_numbered_read_file_output(
    markdown: &str,
    entry_ix: usize,
    context_ix: usize,
    tool_call: &ToolCall,
) -> (r: Option<NumberedCodeBlock>)
    ensures
        numbered_output_is(r, markdown@, entry_ix, context_ix, *tool_call),
{
    if !text::option_is(&tool_call.tool_name, "read_file") {
        return None;
    }
    match numbered_code::parse_cat_numbered_markdown_code_block(markdown) {
        None => None,
        Some(parsed) => {
            let mut id = text::with_count("copy-read-file-output-", entry_ix);
            id.append("-");
            id.append(text::count(context_ix).as_str());
            Some(render_cat_numbered_code_block(parsed, id))
        },
    }
}

/// A stretch of code that is drawn in one style.
#[derive(Clone, Copy, PartialEq, Eq, Structural, Debug)]
pub struct TextRun {
    pub len: usize,
    /// The highlight of the stretch, where it has one.
    pub highlight: Option<u32>,
}

/// A highlighted range of bytes.
#[derive(Clone, Copy, PartialEq, Eq, Structural, Debug)]
pub struct HighlightRange {
    pub start: usize,
    pub end: usize,
    pub highlight: u32,
}

/// The end of the last range, and the start of the code where there is none.
pub open spec fn covered(ranges: Seq<HighlightRange>) -> usize {
    if ranges.len() == 0 {
        0
    } else {
        ranges.last().end
    }
}

/// The runs up to the end of the last range: each range, with the gap before it.
pub open spec fn range_runs(ranges: Seq<HighlightRange>) -> Seq<TextRun>
    decreases ranges.len(),
{
    if ranges.len() == 0 {
        seq![]
    } else {
        let before = range_runs(ranges.drop_last());
        let offset = covered(ranges.drop_last());
        let range = ranges.last();
        let with_gap = if range.start > offset {
            before.push(TextRun { len: (range.start - offset) as usize, highlight: None })
        } else {
            before
        };
        with_gap.push(
            TextRun {
                len: if range.end > range.start {
                    (range.end - range.start) as usize
                } else {
                    0
                },
                highlight: Some(range.highlight),
            },
        )
    }
}

/// The runs of a code of `code_len` bytes.
pub open spec fn code_runs(code_len: usize, ranges: Seq<HighlightRange>) -> Seq<TextRun> {
    if code_len == 0 {
        seq![]
    } else if covered(ranges) < code_len {
        range_runs(ranges).push(
            TextRun { len: (code_len - covered(ranges)) as usize, highlight: None },
        )
    } else {
        range_runs(ranges)
    }
}

/// The runs of a code of `code_len` bytes; without a language there is one plain run.
pub fn highlight_code_runs(code_len: usize, ranges: Option<&Vec<HighlightRange>>) -> (r: Vec<
    TextRun,
>)
    ensures
        r@ == code_runs(
            code_len,
            match ranges {
                Some(v) => v@,
                None => seq![],
            },
        ),
{
    let mut runs: Vec<TextRun> = Vec::new();
    if code_len == 0 {
        return runs;
    }
    let mut offset: usize = 0;
    match ranges {
        None => {
            runs.push(TextRun { len: code_len, highlight: None });
        },
        Some(v) => {
            let mut i: usize = 0;
            while i < v.len()
                invariant
                    i <= v@.len(),
                    runs@ == range_runs(v@.take(i as int)),
                    offset == covered(v@.take(i as int)),
                decreases v@.len() - i,
            {
                let range = v[i];
                assert(v@.take(i + 1).drop_last() == v@.take(i as int));
                if range.start > offset {
                    runs.push(TextRun { len: range.start - offset, highlight: None });
                }
                let len: usize = if range.end > range.start {
                    range.end - range.start
                } else {
                    0
                };
                runs.push(TextRun { len, highlight: Some(range.highlight) });
                offset = range.end;
                i = i + 1;
            }
            assert(v@.take(i as int) == v@);
            if offset < code_len {
                runs.push(TextRun { len: code_len - offset, highlight: None });
            }
        },
    }
    runs
}

/// The total length of the runs.
pub open spec fn total_length(runs: Seq<TextRun>) -> nat
    decreases runs.len(),
{
    if runs.len() == 0 {
        0
    } else {
        total_length(runs.drop_last()) + runs.last().len as nat
    }
}

/// Whether the ranges lie in order, apart from each other and inside the code.
pub open spec fn ordered(ranges: Seq<HighlightRange>, code_len: usize) -> bool {
    &&& forall|i: int|
        0 <= i < ranges.len() ==> (#[trigger] ranges[i]).start <= ranges[i].end && ranges[i].end
            <= code_len
    &&& forall|i: int, j: int|
        0 <= i < j < ranges.len() ==> (#[trigger] ranges[i]).end <= (#[trigger] ranges[j]).start
}

proof fn lemma_range_runs_cover(ranges: Seq<HighlightRange>, code_len: usize)
    requires
        ordered(ranges, code_len),
    ensures
        total_length(range_runs(ranges)) == covered(ranges),
        covered(ranges) <= code_len,
    decreases ranges.len(),
{
    if ranges.len() > 0 {
        let before = ranges.drop_last();
        assert(ordered(before, code_len)) by {
            assert forall|i: int| 0 <= i < before.len() implies (#[trigger] before[i]).start
                <= before[i].end && before[i].end <= code_len by {
                assert(ranges[i].start <= ranges[i].end && ranges[i].end <= code_len);
            }
            assert forall|i: int, j: int| 0 <= i < j < before.len() implies (
            #[trigger] before[i]).end <= (#[trigger] before[j]).start by {
                assert(ranges[i].end <= ranges[j].start);
            }
        }
        lemma_range_runs_cover(before, code_len);
        let range = ranges.last();
        assert(ranges[ranges.len() - 1] == range);
        let offset = covered(before);
        if before.len() > 0 {
            assert(ranges[before.len() - 1].end <= ranges[ranges.len() - 1].start);
        }
        let runs = range_runs(before);
        let gap = TextRun { len: (range.start - offset) as usize, highlight: None };
        let with_gap = if range.start > offset {
            runs.push(gap)
        } else {
            runs
        };
        assert(runs.push(gap).drop_last() == runs);
        assert(total_length(with_gap) == range.start);
        assert(range_runs(ranges).drop_last() == with_gap);
    }
}

/// Where the highlighted ranges lie in order and inside the code, the runs cover the
/// code exactly.
pub proof fn runs_cover_the_code(code_len: usize, ranges: Seq<HighlightRange>)
    requires
        ordered(ranges, code_len),
    ensures
        total_length(code_runs(code_len, ranges)) == code_len,
{
    lemma_range_runs_cover(ranges, code_len);
    if code_len > 0 && covered(ranges) < code_len {
        let runs = code_runs(code_len, ranges);
        assert(runs.drop_last() == range_runs(ranges));
    }
}

proof fn lemma_aligned_numeral(n: nat, width: nat)
    ensures
        text::trimmed(right_aligned(text::decimal(n), width)) == text::decimal(n),
        !right_aligned(text::decimal(n), width).contains('\n'),
{
    let numeral = text::decimal(n);
    let aligned = right_aligned(numeral, width);
    numbered_code::decimal_numeral_stands_for_its_number(n);
    let bounds = text::trimming_takes_the_white_space_at_both_ends(aligned);
    let pad: int = if numeral.len() < width {
        width - numeral.len()
    } else {
        0
    };
    assert(aligned.len() == pad + numeral.len());
    assert forall|i: int| pad <= i < aligned.len() implies numbered_code::is_digit(aligned[i]) by {
        assert(aligned[i] == numeral[i - pad]);
        assert(numbered_code::is_digit(numeral[i - pad]));
    }
    assert forall|i: int| 0 <= i < pad implies aligned[i] == ' ' by {}
    let last = aligned.len() - 1;
    assert(numbered_code::is_digit(aligned[last]));
    assert(numbered_code::is_digit(aligned[pad]));
    text::white_space_among_ascii(aligned[last]);
    text::white_space_among_ascii(aligned[pad]);
    assert(bounds.1 == aligned.len()) by {
        if bounds.1 < aligned.len() {
            assert(text::white_space(aligned[last]));
        }
    }
    assert(bounds.0 <= pad) by {
        if bounds.0 > pad {
            assert(text::white_space(aligned[pad]));
        }
    }
    assert(bounds.0 == pad) by {
        if bounds.0 < pad {
            text::white_space_among_ascii(aligned[bounds.0]);
        }
    }
    assert(aligned.subrange(pad, aligned.len() as int) =~= numeral);
    assert(!aligned.contains('\n')) by {
        assert forall|i: int| 0 <= i < aligned.len() implies aligned[i] != '\n' by {
            if i >= pad {
                assert(numbered_code::is_digit(aligned[i]));
            }
        }
    }
}

/// Line `i` of the gutter, without its leading spaces, is the numeral of the number that is `i`
/// more than the first one.
pub proof fn the_gutter_counts_on(first: u32, count: nat, i: int)
    requires
        0 <= i < count,
        first + i <= u32::MAX,
    ensures
        gutter_lines(first, count).len() == count,
        numbered_code::numeral_value(text::trimmed(gutter_lines(first, count)[i])) == first + i,
        text::trimmed(gutter_lines(first, count)[i]) == text::decimal((first + i) as nat),
        !gutter_lines(first, count)[i].contains('\n'),
{
    lemma_aligned_numeral((first + i) as nat, gutter_width(first, count));
    numbered_code::decimal_numeral_stands_for_its_number((first + i) as nat);
}

/// The gutter is its lines with a newline between neighbours.
pub proof fn the_gutter_has_a_line_for_each_number(first: u32, count: nat)
    ensures
        gutter(first, count) == text::joined(gutter_lines(first, count), seq!['\n']),
{
    reveal_strlit("\n");
    assert("\n"@ =~= seq!['\n']);
}

/// The numbers of a numbered text survive parsing and rendering. The output of the tool that
/// reads files is shown as its code, with a gutter that has a line for each line of the code:
/// the number that stood in front of it.
pub proof fn numbers_survive_parsing_and_rendering(
    output: Option<NumberedCodeBlock>,
    n: nat,
    tag: Seq<char>,
    texts: Seq<Seq<char>>,
    pads: Seq<nat>,
    first: u32,
    entry_ix: usize,
    context_ix: usize,
    tool_call: ToolCall,
) -> (numbers: Seq<Seq<char>>)
    requires
        n >= 3,
        !tag.contains('\n'),
        tag.len() > 0 ==> tag[0] != '`',
        texts.len() > 0,
        pads.len() == texts.len(),
        first + texts.len() - 1 <= u32::MAX,
        forall|i: int|
            0 <= i < texts.len() ==> !(#[trigger] texts[i]).contains('\n') && (texts[i].len() == 0
                || texts[i].last() != '\r'),
        numbered_output_is(
            output,
            numbered_code::backticks(n) + tag + seq!['\n'] + numbered_code::numbered_text(
                texts,
                pads,
                first as nat,
                false,
                false,
            ) + seq!['\n'] + numbered_code::backticks(n) + seq!['\n'],
            entry_ix,
            context_ix,
            tool_call,
        ),
    ensures
        output is Some <==> (tool_call.tool_name matches Some(name) && name@ == "read_file"@),
        output matches Some(block) ==> {
            &&& block.code@ == text::joined(texts, seq!['\n'])
            &&& block.gutter@ == text::joined(numbers, seq!['\n'])
            &&& numbers.len() == texts.len()
            &&& forall|i: int|
                0 <= i < texts.len() ==> numbered_code::numeral_value(
                    text::trimmed(#[trigger] numbers[i]),
                ) == first + i && !numbers[i].contains('\n')
        },
{
    numbered_code::fenced_numbered_code_reads_back(n, tag, texts, pads, first as nat);
    the_gutter_has_a_line_for_each_number(first, texts.len());
    let numbers = gutter_lines(first, texts.len());
    assert forall|i: int| 0 <= i < texts.len() implies numbered_code::numeral_value(
        text::trimmed(#[trigger] numbers[i]),
    ) == first + i && !numbers[i].contains('\n') by {
        the_gutter_counts_on(first, texts.len(), i);
    }
    numbers
}

/// A text that is no numbered code block, and the output of another tool, is not shown as
/// numbered code.
pub proof fn other_output_is_not_numbered(
    output: Option<NumberedCodeBlock>,
    markdown: Seq<char>,
    entry_ix: usize,
    context_ix: usize,
    tool_call: ToolCall,
)
    requires
        numbered_output_is(output, markdown, entry_ix, context_ix, tool_call),
        tool_call.tool_name is None || tool_call.tool_name->0@ != "read_file"@
            || numbered_code::numbered_code_block(markdown) is None,
    ensures
        output is None,
{
}

/// The identifiers of a block tell apart its parts and the place of the output.
pub proof fn blocks_are_named_by_their_place(
    output: Option<NumberedCodeBlock>,
    markdown: Seq<char>,
    entry_ix: usize,
    context_ix: usize,
    tool_call: ToolCall,
)
    requires
        numbered_output_is(output, markdown, entry_ix, context_ix, tool_call),
    ensures
        output matches Some(block) ==> {
            &&& block.copy_button_id@ == "copy-read-file-output-"@ + text::decimal(entry_ix as nat)
                + "-"@ + text::decimal(context_ix as nat)
            &&& block.code_block_id@ == "read-file-code-block-"@ + block.copy_button_id@
            &&& block.code_scroll_id@ == "read-file-code-scroll-"@ + block.copy_button_id@
        },
{
}

/// The highlight of the byte at `offset` behind the runs before it.
pub open spec fn highlight_at(runs: Seq<TextRun>, offset: int) -> Option<u32>
    decreases runs.len(),
{
    if runs.len() == 0 {
        None
    } else if total_length(runs.drop_last()) <= offset {
        runs.last().highlight
    } else {
        highlight_at(runs.drop_last(), offset)
    }
}

proof fn lemma_runs_highlight(ranges: Seq<HighlightRange>, code_len: usize, offset: int)
    requires
        ordered(ranges, code_len),
        0 <= offset < covered(ranges),
    ensures
        forall|i: int|
            0 <= i < ranges.len() && (#[trigger] ranges[i]).start <= offset < ranges[i].end
                ==> highlight_at(range_runs(ranges), offset) == Some(ranges[i].highlight),
        (forall|i: int|
            0 <= i < ranges.len() ==> !((#[trigger] ranges[i]).start <= offset < ranges[i].end))
            ==> highlight_at(range_runs(ranges), offset) is None,
    decreases ranges.len(),
{
    if ranges.len() > 0 {
        let before = ranges.drop_last();
        let range = ranges.last();
        let n = before.len() as int;
        assert(ranges[n] == range);
        assert(ordered(before, code_len)) by {
            assert forall|i: int| 0 <= i < before.len() implies (#[trigger] before[i]).start
                <= before[i].end && before[i].end <= code_len by {
                assert(ranges[i].start <= ranges[i].end && ranges[i].end <= code_len);
            }
            assert forall|i: int, j: int| 0 <= i < j < before.len() implies (
            #[trigger] before[i]).end <= (#[trigger] before[j]).start by {
                assert(ranges[i].end <= ranges[j].start);
            }
        }
        lemma_range_runs_cover(before, code_len);
        lemma_range_runs_cover(ranges, code_len);
        let reached = covered(before);
        if n > 0 {
            assert(ranges[n - 1].end <= ranges[n].start);
        }
        let runs = range_runs(before);
        let gap = TextRun { len: (range.start - reached) as usize, highlight: None };
        let with_gap = if range.start > reached {
            runs.push(gap)
        } else {
            runs
        };
        assert(runs.push(gap).drop_last() =~= runs);
        assert(range_runs(ranges).drop_last() =~= with_gap);
        assert(total_length(with_gap) == range.start);
        if offset < reached {
            lemma_runs_highlight(before, code_len, offset);
            assert(highlight_at(range_runs(ranges), offset) == highlight_at(runs, offset));
            assert forall|i: int|
                0 <= i < ranges.len() && (#[trigger] ranges[i]).start <= offset
                    < ranges[i].end implies highlight_at(range_runs(ranges), offset) == Some(
                ranges[i].highlight,
            ) by {
                assert(i < n);
                assert(before[i] == ranges[i]);
            }
            if forall|i: int|
                0 <= i < ranges.len() ==> !((#[trigger] ranges[i]).start <= offset
                    < ranges[i].end) {
                assert forall|i: int| 0 <= i < before.len() implies !((
                #[trigger] before[i]).start <= offset < before[i].end) by {
                    assert(before[i] == ranges[i]);
                }
            }
        } else {
            assert forall|i: int| 0 <= i < n implies !((#[trigger] ranges[i]).start <= offset
                < ranges[i].end) by {
                if i < n - 1 {
                    assert(ranges[i].end <= ranges[n - 1].start);
                    assert(ranges[n - 1].start <= ranges[n - 1].end);
                }
            }
            if offset < range.start {
                assert(highlight_at(range_runs(ranges), offset) == highlight_at(with_gap, offset));
            }
        }
    }
}

/// Where the highlighted ranges lie in order and inside the code, each byte of the code is drawn
/// in the highlight of the range that it lies in, and plainly where it lies in none.
pub proof fn runs_keep_the_highlights(
    code_len: usize,
    ranges: Seq<HighlightRange>,
    offset: int,
    i: int,
)
    requires
        ordered(ranges, code_len),
        0 <= offset < code_len,
    ensures
        0 <= i < ranges.len() && ranges[i].start <= offset < ranges[i].end ==> highlight_at(
            code_runs(code_len, ranges),
            offset,
        ) == Some(ranges[i].highlight),
        (forall|j: int|
            0 <= j < ranges.len() ==> !((#[trigger] ranges[j]).start <= offset < ranges[j].end))
            ==> highlight_at(code_runs(code_len, ranges), offset) is None,
{
    lemma_range_runs_cover(ranges, code_len);
    let runs = range_runs(ranges);
    if covered(ranges) < code_len {
        assert(code_runs(code_len, ranges).drop_last() =~= runs);
    }
    if offset < covered(ranges) {
        lemma_runs_highlight(ranges, code_len, offset);
    } else if 0 <= i < ranges.len() {
        let last = ranges.len() - 1;
        if i < last {
            assert(ranges[i].end <= ranges[last].start);
            assert(ranges[last].start <= ranges[last].end);
        }
    }
}

} // verus!
