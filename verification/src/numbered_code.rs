//! Code blocks with a line number in front of each line, as `cat -n` prints
//! them: parsing them and laying them out with a gutter.

use crate::text;
use vstd::prelude::*;
use vstd::slice::*;
use vstd::string::*;

verus! {

/// A numbered code block without its line numbers. The line numbers are
/// contiguous and start at `first_number`.
#[derive(Debug)]
pub struct ParsedCatNumberedCode {
    pub code: String,
    pub first_number: u32,
    pub line_count: usize,
}

/// The length of the first line of `s`, its newline included.
pub open spec fn first_line_length(s: Seq<char>) -> nat {
    let n = text::before_first(s, '\n').len();
    if n < s.len() {
        n + 1
    } else {
        s.len()
    }
}

/// The lines of `s`, each with its newline; the last one may lack it.
pub open spec fn lines(s: Seq<char>) -> Seq<Seq<char>>
    decreases s.len(),
{
    if s.len() == 0 {
        seq![]
    } else {
        let n = first_line_length(s) as int;
        seq![s.take(n)] + lines(s.skip(n))
    }
}

/// `line` without one newline at its end, and then without one carriage return.
pub open spec fn without_ending(line: Seq<char>) -> Seq<char> {
    let a = if line.len() > 0 && line.last() == '\n' {
        line.drop_last()
    } else {
        line
    };
    if a.len() > 0 && a.last() == '\r' {
        a.drop_last()
    } else {
        a
    }
}

/// Whether `c` is a decimal digit.
pub open spec fn is_digit(c: char) -> bool {
    '0' <= c && c <= '9'
}

/// Whether `s` holds decimal digits only.
pub open spec fn all_digits(s: Seq<char>) -> bool {
    forall|i: int| 0 <= i < s.len() ==> is_digit(#[trigger] s[i])
}

/// Whether `s` holds spaces and decimal digits only.
pub open spec fn spaces_and_digits(s: Seq<char>) -> bool {
    forall|i: int| 0 <= i < s.len() ==> (#[trigger] s[i] == ' ' || is_digit(s[i]))
}

/// The number that a decimal numeral stands for.
pub open spec fn numeral_value(s: Seq<char>) -> nat
    decreases s.len(),
{
    if s.len() == 0 {
        0
    } else {
        numeral_value(s.drop_last()) * 10 + (s.last() as nat - '0' as nat) as nat
    }
}

/// The number and the text of a line: spaces and digits, a tab, the text.
pub open spec fn numbered_line(line: Seq<char>) -> Option<(nat, Seq<char>)> {
    let prefix = text::before_first(line, '\t');
    let number = text::trimmed(prefix);
    if prefix.len() < line.len() && spaces_and_digits(prefix) && number.len() > 0 && all_digits(
        number,
    ) && numeral_value(number) <= u32::MAX {
        Some((numeral_value(number), line.skip(prefix.len() as int + 1)))
    } else {
        None
    }
}

/// The number of a numbered line.
pub open spec fn line_number(line: Seq<char>) -> nat {
    match numbered_line(line) {
        Some((number, _)) => number,
        None => 0,
    }
}

/// The text of a numbered line.
pub open spec fn line_text(line: Seq<char>) -> Seq<char> {
    match numbered_line(line) {
        Some((_, text)) => text,
        None => seq![],
    }
}

/// Whether each line has a number, one more than the line before it.
pub open spec fn contiguous(ls: Seq<Seq<char>>) -> bool {
    forall|i: int|
        0 <= i < ls.len() ==> (#[trigger] numbered_line(without_ending(ls[i]))) is Some
            && line_number(without_ending(ls[i])) == line_number(without_ending(ls[0])) + i
}

/// The text of each line behind its number.
pub open spec fn line_texts(ls: Seq<Seq<char>>) -> Seq<Seq<char>> {
    Seq::new(ls.len(), |i: int| line_text(without_ending(ls[i])))
}

/// The code, the first number and the number of lines of a numbered code block.
pub open spec fn numbered_code(code: Seq<char>) -> Option<(Seq<char>, nat, nat)> {
    let ls = lines(code);
    if code.len() > 0 && contiguous(ls) {
        Some(
            (text::joined(line_texts(ls), seq!['\n']), line_number(without_ending(ls[0])), ls.len()),
        )
    } else {
        None
    }
}

/// The number of backticks at the start of `s`.
pub open spec fn leading_backticks(s: Seq<char>) -> nat
    decreases s.len(),
{
    if s.len() > 0 && s[0] == '`' {
        1 + leading_backticks(s.drop_first())
    } else {
        0
    }
}

/// The tag and the code of a text that is one fenced code block: a fence of three
/// or more backticks, the tag, a newline, the code, a newline, the fence, a newline.
pub open spec fn fenced_code_block(s: Seq<char>) -> Option<(Seq<char>, Seq<char>)> {
    let n = leading_backticks(s) as int;
    let rest = s.skip(n);
    let tag = text::before_first(rest, '\n');
    let after_tag = rest.skip(tag.len() as int + 1);
    let closing = seq!['\n'] + s.take(n) + seq!['\n'];
    if 3 <= n && n < s.len() && tag.len() < rest.len() && closing.is_suffix_of(after_tag) {
        Some((tag, after_tag.take(after_tag.len() - closing.len())))
    } else {
        None
    }
}

/// The code, the first number and the number of lines of a text that is one fenced
/// code block with numbered lines.
pub open spec fn numbered_code_block(s: Seq<char>) -> Option<(Seq<char>, nat, nat)> {
    match fenced_code_block(s) {
        Some((_, code)) => numbered_code(code),
        None => None,
    }
}

proof fn lemma_leading_backticks_are(s: Seq<char>, n: nat)
    requires
        n <= s.len(),
        forall|i: int| 0 <= i < n ==> s[i] == '`',
        n < s.len() ==> s[n as int] != '`',
    ensures
        leading_backticks(s) == n,
    decreases s.len(),
{
    if n > 0 {
        lemma_leading_backticks_are(s.drop_first(), (n - 1) as nat);
    }
}

proof fn lemma_numeral_value_of_prefix(s: Seq<char>, k: int)
    requires
        0 <= k <= s.len(),
        all_digits(s),
    ensures
        numeral_value(s.take(k)) <= numeral_value(s),
    decreases s.len(),
{
    if k < s.len() {
        let t = s.drop_last();
        assert(t.take(k) == s.take(k));
        assert(all_digits(t)) by {
            assert forall|i: int| 0 <= i < t.len() implies is_digit(#[trigger] t[i]) by {
                assert(t[i] == s[i]);
            }
        }
        lemma_numeral_value_of_prefix(t, k);
    } else {
        assert(s.take(k) == s);
    }
}

/// The code inside the fences of a Markdown text that is one numbered code block,
/// without the line numbers.
pub fn parse_cat_numbered_markdown_code_block(markdown: &str) -> (r: Option<ParsedCatNumberedCode>)
    ensures
        match r {
            Some(parsed) => numbered_code_block(markdown@) == Some(
                (parsed.code@, parsed.first_number as nat, parsed.line_count as nat),
            ),
            None => numbered_code_block(markdown@) is None,
        },
{
    match parse_single_fenced_code_block(markdown) {
        Some((_, code)) => parse_cat_numbered_code(code),
        None => None,
    }
}

/// The tag and the code of a text that is one fenced code block.
pub fn parse_single_fenced_code_block<'a>(markdown: &'a str) -> (r: Option<(&'a str, &'a str)>)
    ensures
        match r {
            Some((tag, code)) => fenced_code_block(markdown@) == Some((tag@, code@)),
            None => fenced_code_block(markdown@) is None,
        },
{
    let v = text::characters(markdown);
    let chars = v.as_slice();
    let mut n: usize = 0;
    while n < chars.len() && chars[n] == '`'
        invariant
            n <= chars@.len(),
            forall|i: int| 0 <= i < n ==> chars@[i] == '`',
        decreases chars@.len() - n,
    {
        n = n + 1;
    }
    proof {
        lemma_leading_backticks_are(markdown@, n as nat);
    }
    if n == chars.len() || n < 3 {
        return None;
    }
    let rest = slice_subrange(chars, n, chars.len());
    let tag_end = text::length_until(rest, '\n');
    let ghost s = markdown@;
    assert(rest@ == s.skip(n as int));
    if tag_end == rest.len() {
        return None;
    }
    let after_tag = slice_subrange(rest, tag_end + 1, rest.len());
    let ghost closing = seq!['\n'] + s.take(n as int) + seq!['\n'];
    assert(after_tag@ == rest@.skip(tag_end + 1));
    if after_tag.len() < n || after_tag.len() - n < 2 {
        return None;
    }
    let closing_length: usize = n + 2;
    let start: usize = after_tag.len() - closing_length;
    let mut i: usize = 0;
    while i < closing_length
        invariant
            i <= closing_length,
            closing_length == n + 2,
            n < chars@.len(),
            chars@ == s,
            start + closing_length == after_tag@.len(),
            after_tag@.len() <= usize::MAX,
            closing == seq!['\n'] + s.take(n as int) + seq!['\n'],
            forall|j: int| 0 <= j < n ==> s[j] == '`',
            forall|j: int| 0 <= j < i ==> after_tag@[start + j] == closing[j],
            rest@ == s.skip(n as int),
            after_tag@ == rest@.skip(text::before_first(rest@, '\n').len() as int + 1),
            leading_backticks(s) == n,
            s == markdown@,
        decreases closing_length - i,
    {
        let expected = if i == 0 || i == n + 1 {
            '\n'
        } else {
            '`'
        };
        assert(expected == closing[i as int]);
        if after_tag[start + i] != expected {
            proof {
                if closing.is_suffix_of(after_tag@) {
                    assert(after_tag@.subrange(
                        after_tag@.len() - closing.len(),
                        after_tag@.len() as int,
                    )[i as int] == closing[i as int]);
                }
            }
            return None;
        }
        i = i + 1;
    }
    proof {
        assert(after_tag@.subrange(after_tag@.len() - closing.len(), after_tag@.len() as int)
            =~= closing);
    }
    let from: usize = n + tag_end + 1;
    let tag = markdown.substring_char(n, n + tag_end);
    let code = markdown.substring_char(from, from + start);
    proof {
        assert(tag@ =~= text::before_first(rest@, '\n'));
        assert(code@ =~= after_tag@.take(after_tag@.len() - closing.len()));
    }
    Some((tag, code))
}

/// Strips the number and the tab from each line. `None` unless every line has a
/// number and the numbers are contiguous and increasing.
#[verifier::spinoff_prover]
#[verifier::rlimit(60)]
pub fn parse_cat_numbered_code(code: &str) -> (r: Option<ParsedCatNumberedCode>)
    ensures
        match r {
            Some(parsed) => numbered_code(code@) == Some(
                (parsed.code@, parsed.first_number as nat, parsed.line_count as nat),
            ),
            None => numbered_code(code@) is None,
        },
{
    let v = text::characters(code);
    let chars = v.as_slice();
    if chars.len() == 0 {
        return None;
    }
    let mut output = String::new();
    let mut first_number: u32 = 0;
    let mut line_count: usize = 0;
    let mut position: usize = 0;
    let ghost mut done: Seq<Seq<char>> = seq![];
    proof {
        assert(code@.skip(0) == code@);
        assert(seq![] + lines(code@) =~= lines(code@));
        assert(line_texts(done) =~= seq![]);
    }
    while position < chars.len()
        invariant
            chars@ == code@,
            position <= chars@.len(),
            lines(code@) == done + lines(code@.skip(position as int)),
            line_count == done.len(),
            line_count <= position,
            position == 0 <==> line_count == 0,
            forall|i: int|
                0 <= i < done.len() ==> (#[trigger] numbered_line(without_ending(done[i])))
                    is Some && line_number(without_ending(done[i])) == first_number + i,
            output@ == text::joined(line_texts(done), seq!['\n']),
        decreases chars@.len() - position,
    {
        let rest = slice_subrange(chars, position, chars.len());
        let ghost tail = code@.skip(position as int);
        assert(rest@ == tail);
        let until_newline = text::length_until(rest, '\n');
        let length: usize = if until_newline < rest.len() {
            until_newline + 1
        } else {
            until_newline
        };
        let raw_line = slice_subrange(rest, 0, length);
        let ghost line = tail.take(first_line_length(tail) as int);
        proof {
            assert(raw_line@ == line);
            assert(tail.len() > 0 && length > 0);
            assert(lines(tail) == seq![line] + lines(tail.skip(length as int)));
            assert(tail.skip(length as int) == code@.skip(position + length));
            assert(lines(code@)[done.len() as int] == line);
        }
        let parsed = number_and_text(without_line_ending(raw_line));
        let ghost next = done.push(line);
        match parsed {
            None => {
                proof {
                    assert(numbered_line(without_ending(lines(code@)[done.len() as int])) is None);
                    assert(!contiguous(lines(code@)));
                }
                return None;
            },
            Some((number, text)) => {
                if line_count == 0 {
                    first_number = number;
                } else if number as u64 != first_number as u64 + line_count as u64 {
                    proof {
                        let ls = lines(code@);
                        assert(ls[0] == done[0]);
                        assert(line_number(without_ending(done[0])) == first_number);
                        assert(line_number(without_ending(ls[done.len() as int]))
                            == number);
                        assert(!contiguous(ls));
                    }
                    return None;
                }
                if line_count > 0 {
                    output.push('\n');
                }
                text::push_all(&mut output, text);
                proof {
                    let texts = line_texts(next);
                    assert(texts.drop_last() =~= line_texts(done));
                    assert(texts.last() == text@);
                    assert(output@ =~= text::joined(texts, seq!['\n']));
                    assert(done + (seq![line] + lines(tail.skip(length as int))) =~= next + lines(
                        tail.skip(length as int),
                    ));
                    assert forall|i: int| 0 <= i < next.len() implies (#[trigger] numbered_line(
                        without_ending(next[i]),
                    )) is Some && line_number(without_ending(next[i])) == first_number
                        + i by {
                        if i < done.len() {
                            assert(next[i] == done[i]);
                        }
                    }
                    done = next;
                }
                line_count = line_count + 1;
                position = position + length;
            },
        }
    }
    proof {
        assert(code@.skip(position as int) =~= seq![]);
        assert(lines(code@) =~= done);
        assert(contiguous(done));
    }
    Some(ParsedCatNumberedCode { code: output, first_number, line_count })
}

fn without_line_ending<'a>(line: &'a [char]) -> (r: &'a [char])
    ensures
        r@ == without_ending(line@),
{
    let mut n: usize = line.len();
    if n > 0 && line[n - 1] == '\n' {
        n = n - 1;
    }
    let ghost a = line@.take(n as int);
    assert(a == (if line@.len() > 0 && line@.last() == '\n' {
        line@.drop_last()
    } else {
        line@
    }));
    if n > 0 && line[n - 1] == '\r' {
        n = n - 1;
    }
    let r = slice_subrange(line, 0, n);
    assert(r@ =~= without_ending(line@));
    r
}

/// The line without its newline and a carriage return before it.
pub fn strip_line_ending<'a>(line: &'a str) -> (r: &'a str)
    ensures
        r@ == without_ending(line@),
{
    let v = text::characters(line);
    let n = without_line_ending(v.as_slice()).len();
    let r = line.substring_char(0, n);
    assert(without_ending(line@) =~= line@.take(without_ending(line@).len() as int));
    assert(r@ =~= without_ending(line@));
    r
}

fn number_and_text<'a>(line: &'a [char]) -> (r: Option<(u32, &'a [char])>)
    ensures
        match r {
            Some((number, text)) => numbered_line(line@) == Some((number as nat, text@)),
            None => numbered_line(line@) is None,
        },
{
    let n = text::length_until(line, '\t');
    let ghost prefix = text::before_first(line@, '\t');
    if n == line.len() {
        return None;
    }
    let prefix_chars = slice_subrange(line, 0, n);
    assert(prefix_chars@ =~= prefix);
    let mut i: usize = 0;
    while i < prefix_chars.len()
        invariant
            i <= prefix_chars@.len(),
            prefix_chars@ == prefix,
            prefix == text::before_first(line@, '\t'),
            forall|j: int| 0 <= j < i ==> (#[trigger] prefix[j] == ' ' || is_digit(prefix[j])),
        decreases prefix_chars@.len() - i,
    {
        let c = prefix_chars[i];
        if !(c == ' ' || ('0' <= c && c <= '9')) {
            assert(!spaces_and_digits(prefix)) by {
                assert(!(prefix[i as int] == ' ' || is_digit(prefix[i as int])));
            }
            return None;
        }
        i = i + 1;
    }
    let number = text::trim_chars(prefix_chars);
    if number.len() == 0 {
        return None;
    }
    match number_of(number) {
        None => None,
        Some(value) => {
            let text = slice_subrange(line, n + 1, line.len());
            assert(text@ =~= line@.skip(prefix.len() as int + 1));
            Some((value, text))
        },
    }
}

/// The number that the digits stand for.
fn number_of(digits: &[char]) -> (r: Option<u32>)
    ensures
        match r {
            Some(value) => all_digits(digits@) && numeral_value(digits@) == value,
            None => !all_digits(digits@) || numeral_value(digits@) > u32::MAX,
        },
{
    let mut value: u64 = 0;
    let mut i: usize = 0;
    while i < digits.len()
        invariant
            i <= digits@.len(),
            value <= u32::MAX,
            forall|j: int| 0 <= j < i ==> is_digit(#[trigger] digits@[j]),
            value == numeral_value(digits@.take(i as int)),
        decreases digits@.len() - i,
    {
        let c = digits[i];
        if !('0' <= c && c <= '9') {
            assert(!is_digit(digits@[i as int]));
            return None;
        }
        let d: u64 = c as u64 - '0' as u64;
        assert(digits@.take(i + 1).drop_last() == digits@.take(i as int));
        value = value * 10 + d;
        i = i + 1;
        if value > 0xffff_ffff {
            proof {
                if all_digits(digits@) {
                    lemma_numeral_value_of_prefix(digits@, i as int);
                }
            }
            return None;
        }
    }
    assert(digits@.take(i as int) == digits@);
    Some(value as u32)
}

/// The number and the text of a line: spaces and digits, a tab, the text.
pub fn parse_cat_numbered_line<'a>(line: &'a str) -> (r: Option<(u32, &'a str)>)
    ensures
        match r {
            Some((number, text)) => numbered_line(line@) == Some((number as nat, text@)),
            None => numbered_line(line@) is None,
        },
{
    let v = text::characters(line);
    let total = v.len();
    let n = text::length_until(v.as_slice(), '\t');
    match number_and_text(v.as_slice()) {
        None => None,
        Some((number, text)) => {
            assert(n < total);
            let rest = line.substring_char(n + 1, total);
            assert(rest@ =~= line@.skip(n + 1));
            Some((number, rest))
        },
    }
}

/// `n` spaces.
pub open spec fn spaces(n: nat) -> Seq<char> {
    Seq::new(n, |i: int| ' ')
}

/// `n` backticks.
pub open spec fn backticks(n: nat) -> Seq<char> {
    Seq::new(n, |i: int| '`')
}

/// A line with its number in front, and a carriage return behind it where asked for.
pub open spec fn with_number(pad: nat, number: nat, text: Seq<char>, carriage: bool) -> Seq<char> {
    spaces(pad) + text::decimal(number) + seq!['\t'] + text + (if carriage {
        seq!['\r']
    } else {
        seq![]
    })
}

proof fn lemma_before_first_in_sum(a: Seq<char>, c: char, b: Seq<char>)
    requires
        !a.contains(c),
    ensures
        text::before_first(a + seq![c] + b, c) == a,
    decreases a.len(),
{
    let s = a + seq![c] + b;
    if a.len() > 0 {
        assert(a.contains(a[0]));
        assert(s.drop_first() =~= a.drop_first() + seq![c] + b);
        assert forall|i: int| 0 <= i < a.drop_first().len() implies a.drop_first()[i] != c by {
            assert(a[i + 1] != c);
        }
        lemma_before_first_in_sum(a.drop_first(), c, b);
        assert(seq![a[0]] + a.drop_first() =~= a);
    } else {
        assert(s[0] == c);
        assert(text::before_first(s, c) =~= a);
    }
}

proof fn lemma_before_first_without(a: Seq<char>, c: char)
    requires
        !a.contains(c),
    ensures
        text::before_first(a, c) == a,
    decreases a.len(),
{
    if a.len() > 0 {
        assert(a.contains(a[0]));
        assert forall|i: int| 0 <= i < a.drop_first().len() implies a.drop_first()[i] != c by {
            assert(a[i + 1] != c);
        }
        lemma_before_first_without(a.drop_first(), c);
        assert(seq![a[0]] + a.drop_first() =~= a);
    } else {
        assert(text::before_first(a, c) =~= a);
    }
}

/// A decimal numeral is made of digits and stands for its number.
pub proof fn decimal_numeral_stands_for_its_number(n: nat)
    ensures
        text::decimal(n).len() > 0,
        all_digits(text::decimal(n)),
        numeral_value(text::decimal(n)) == n,
    decreases n,
{
    let s = text::decimal(n);
    if n >= 10 {
        decimal_numeral_stands_for_its_number(n / 10);
        assert(s.drop_last() =~= text::decimal(n / 10));
        assert forall|i: int| 0 <= i < s.len() implies is_digit(#[trigger] s[i]) by {
            if i < s.len() - 1 {
                assert(s[i] == text::decimal(n / 10)[i]);
            }
        }
    } else {
        assert(s.drop_last() =~= seq![]);
        assert(numeral_value(s.drop_last()) == 0);
    }
}

proof fn lemma_trimmed_number(pad: nat, number: nat)
    ensures
        text::trimmed(spaces(pad) + text::decimal(number)) == text::decimal(number),
    decreases pad,
{
    let s = spaces(pad) + text::decimal(number);
    decimal_numeral_stands_for_its_number(number);
    let d = text::decimal(number);
    assert(s.last() == d.last());
    assert(is_digit(d[d.len() - 1]));
    assert(text::trimmed_end(s) == s);
    if pad > 0 {
        lemma_trimmed_number((pad - 1) as nat, number);
        assert(s[0] == ' ');
        let t = spaces((pad - 1) as nat) + d;
        assert(s.drop_first() =~= t);
        assert(t.last() == d.last());
        assert(text::trimmed_end(t) == t);
    } else {
        assert(s =~= d);
        assert(is_digit(d[0]));
    }
}

proof fn lemma_numbered_line_of(pad: nat, number: nat, text: Seq<char>, carriage: bool, newline: bool)
    requires
        number <= u32::MAX,
        !text.contains('\n'),
        !carriage ==> text.len() == 0 || text.last() != '\r',
    ensures
        ({
            let line = with_number(pad, number, text, carriage);
            let raw = if newline {
                line.push('\n')
            } else {
                line
            };
            numbered_line(without_ending(raw)) == Some((number, text))
        }),
{
    let line = with_number(pad, number, text, carriage);
    let raw = if newline {
        line.push('\n')
    } else {
        line
    };
    let prefix = spaces(pad) + text::decimal(number);
    let bare = prefix + seq!['\t'] + text;
    decimal_numeral_stands_for_its_number(number);
    if newline {
        assert(raw.drop_last() =~= line);
    } else {
        assert(line.last() != '\n') by {
            if !carriage && text.len() > 0 {
                assert(text.contains(text.last()));
                assert(line.last() == text.last());
            }
        }
    }
    if carriage {
        assert(line.drop_last() =~= bare);
    } else {
        assert(line =~= bare);
        if text.len() > 0 {
            assert(bare.last() == text.last());
        }
    }
    assert(without_ending(raw) =~= bare);
    assert forall|i: int| 0 <= i < prefix.len() implies (#[trigger] prefix[i] == ' ' || is_digit(
        prefix[i],
    )) by {
        if i >= pad {
            assert(is_digit(text::decimal(number)[i - pad]));
        }
    }
    assert(!prefix.contains('\t')) by {
        assert forall|i: int| 0 <= i < prefix.len() implies prefix[i] != '\t' by {
            assert(prefix[i] == ' ' || is_digit(prefix[i]));
        }
    }
    lemma_before_first_in_sum(prefix, '\t', text);
    lemma_trimmed_number(pad, number);
    assert(bare.skip(prefix.len() as int + 1) =~= text);
}

proof fn lemma_joined_from_the_front(parts: Seq<Seq<char>>, separator: Seq<char>)
    requires
        parts.len() > 1,
    ensures
        text::joined(parts, separator) == parts[0] + separator + text::joined(
            parts.drop_first(),
            separator,
        ),
    decreases parts.len(),
{
    let rest = parts.drop_first();
    if parts.len() == 2 {
        assert(parts.drop_last()[0] == parts[0]);
        assert(text::joined(parts.drop_last(), separator) == parts[0]);
        assert(rest[0] == parts.last());
    } else {
        lemma_joined_from_the_front(parts.drop_last(), separator);
        assert(parts.drop_last().drop_first() =~= rest.drop_last());
        assert(rest.last() == parts.last());
        assert(text::joined(parts, separator) =~= parts[0] + separator + text::joined(
            rest,
            separator,
        ));
    }
}

/// The lines of parts that are joined by newlines are the parts.
proof fn lemma_lines_of_joined(parts: Seq<Seq<char>>)
    requires
        parts.len() > 0,
        forall|i: int| 0 <= i < parts.len() ==> !(#[trigger] parts[i]).contains('\n'),
        parts.last().len() > 0,
    ensures
        lines(text::joined(parts, seq!['\n'])) == Seq::new(
            parts.len(),
            |i: int|
                if i < parts.len() - 1 {
                    parts[i].push('\n')
                } else {
                    parts[i]
                },
        ),
    decreases parts.len(),
{
    let s = text::joined(parts, seq!['\n']);
    let expected = Seq::new(
        parts.len(),
        |i: int|
            if i < parts.len() - 1 {
                parts[i].push('\n')
            } else {
                parts[i]
            },
    );
    if parts.len() == 1 {
        lemma_before_first_without(parts[0], '\n');
        assert(s.take(s.len() as int) =~= s);
        assert(s.skip(s.len() as int) =~= seq![]);
        assert(lines(s.skip(s.len() as int)) =~= seq![]);
        assert(lines(s) =~= expected);
    } else {
        let rest = parts.drop_first();
        lemma_joined_from_the_front(parts, seq!['\n']);
        assert forall|i: int| 0 <= i < rest.len() implies !(#[trigger] rest[i]).contains('\n') by {
            assert(rest[i] == parts[i + 1]);
        }
        lemma_lines_of_joined(rest);
        let tail = text::joined(rest, seq!['\n']);
        lemma_before_first_in_sum(parts[0], '\n', tail);
        let n = first_line_length(s) as int;
        assert(n == parts[0].len() + 1);
        assert(s.take(n) =~= parts[0].push('\n'));
        assert(s.skip(n) =~= tail);
        assert(lines(s) == seq![parts[0].push('\n')] + lines(tail));
        assert forall|i: int| 0 <= i < expected.len() implies lines(s)[i] == expected[i] by {
            if i > 0 {
                assert(lines(s)[i] == lines(tail)[i - 1]);
                assert(rest[i - 1] == parts[i]);
            }
        }
        assert(lines(s) =~= expected);
    }
}

/// The lines of parts that are joined by newlines, with one more behind the last part, are the
/// parts with their newlines.
proof fn lemma_lines_of_terminated(parts: Seq<Seq<char>>)
    requires
        parts.len() > 0,
        forall|i: int| 0 <= i < parts.len() ==> !(#[trigger] parts[i]).contains('\n'),
    ensures
        lines(text::joined(parts, seq!['\n']).push('\n')) == Seq::new(
            parts.len(),
            |i: int| parts[i].push('\n'),
        ),
    decreases parts.len(),
{
    let s = text::joined(parts, seq!['\n']).push('\n');
    let expected = Seq::new(parts.len(), |i: int| parts[i].push('\n'));
    if parts.len() == 1 {
        assert(s =~= parts[0] + seq!['\n'] + seq![]);
        lemma_before_first_in_sum(parts[0], '\n', seq![]);
        assert(first_line_length(s) == s.len());
        assert(s.take(s.len() as int) =~= s);
        assert(s.skip(s.len() as int) =~= seq![]);
        assert(lines(s.skip(s.len() as int)) =~= seq![]);
        assert(lines(s) =~= expected);
    } else {
        let rest = parts.drop_first();
        lemma_joined_from_the_front(parts, seq!['\n']);
        assert forall|i: int| 0 <= i < rest.len() implies !(#[trigger] rest[i]).contains('\n') by {
            assert(rest[i] == parts[i + 1]);
        }
        lemma_lines_of_terminated(rest);
        let tail = text::joined(rest, seq!['\n']).push('\n');
        assert(s =~= parts[0] + seq!['\n'] + tail);
        lemma_before_first_in_sum(parts[0], '\n', tail);
        let n = first_line_length(s) as int;
        assert(n == parts[0].len() + 1);
        assert(s.take(n) =~= parts[0].push('\n'));
        assert(s.skip(n) =~= tail);
        assert(lines(s) == seq![parts[0].push('\n')] + lines(tail));
        assert forall|i: int| 0 <= i < expected.len() implies lines(s)[i] == expected[i] by {
            if i > 0 {
                assert(lines(s)[i] == lines(tail)[i - 1]);
                assert(rest[i - 1] == parts[i]);
            }
        }
        assert(lines(s) =~= expected);
    }
}

/// The lines of a text with their numbers, joined by newlines, with or without one more behind
/// the last line.
pub open spec fn numbered_text(
    texts: Seq<Seq<char>>,
    pads: Seq<nat>,
    first: nat,
    carriage: bool,
    ends_in_newline: bool,
) -> Seq<char> {
    let joined = text::joined(
        Seq::new(
            texts.len(),
            |i: int| with_number(pads[i], (first + i) as nat, texts[i], carriage),
        ),
        seq!['\n'],
    );
    if ends_in_newline {
        joined.push('\n')
    } else {
        joined
    }
}

/// Numbering the lines of a text and parsing the result gives the text back: the
/// lines without their numbers, the number of the first one, and how many there are.
/// The numbers may be padded with spaces, each line may end in a carriage return, and the last
/// line may end in a newline as the others do.
pub proof fn numbering_then_parsing_gives_the_code_back(
    texts: Seq<Seq<char>>,
    pads: Seq<nat>,
    first: nat,
    carriage: bool,
    ends_in_newline: bool,
)
    requires
        texts.len() > 0,
        pads.len() == texts.len(),
        first + texts.len() - 1 <= u32::MAX,
        forall|i: int| 0 <= i < texts.len() ==> !(#[trigger] texts[i]).contains('\n'),
        !carriage ==> forall|i: int|
            0 <= i < texts.len() ==> (#[trigger] texts[i]).len() == 0 || texts[i].last() != '\r',
    ensures
        numbered_code(numbered_text(texts, pads, first, carriage, ends_in_newline)) == Some(
            (text::joined(texts, seq!['\n']), first, texts.len()),
        ),
{
    let parts = Seq::new(
        texts.len(),
        |i: int| with_number(pads[i], (first + i) as nat, texts[i], carriage),
    );
    assert forall|i: int| 0 <= i < parts.len() implies !(#[trigger] parts[i]).contains('\n') by {
        let part = parts[i];
        let d = text::decimal((first + i) as nat);
        decimal_numeral_stands_for_its_number((first + i) as nat);
        assert forall|j: int| 0 <= j < part.len() implies part[j] != '\n' by {
            if j < pads[i] {
            } else if j < pads[i] + d.len() {
                assert(is_digit(d[j - pads[i]]));
            } else if j == pads[i] + d.len() {
            } else if j <= pads[i] + d.len() + texts[i].len() {
                assert(part[j] == texts[i][j - pads[i] - d.len() - 1]);
                assert(texts[i].contains(part[j]));
            }
        }
    }
    if ends_in_newline {
        lemma_lines_of_terminated(parts);
    } else {
        lemma_lines_of_joined(parts);
    }
    let code = numbered_text(texts, pads, first, carriage, ends_in_newline);
    let ls = lines(code);
    assert forall|i: int| 0 <= i < ls.len() implies #[trigger] numbered_line(
        without_ending(ls[i]),
    ) == Some(((first + i) as nat, texts[i])) by {
        lemma_numbered_line_of(
            pads[i],
            (first + i) as nat,
            texts[i],
            carriage,
            ends_in_newline || i < parts.len() - 1,
        );
    }
    assert(numbered_line(without_ending(ls[0])) is Some);
    assert(contiguous(ls)) by {
        assert forall|i: int| 0 <= i < ls.len() implies (#[trigger] numbered_line(
            without_ending(ls[i]),
        )) is Some && line_number(without_ending(ls[i])) == line_number(without_ending(ls[0]))
            + i by {}
    }
    assert(line_texts(ls) =~= texts) by {
        assert forall|i: int| 0 <= i < ls.len() implies line_texts(ls)[i] == texts[i] by {
            assert(numbered_line(without_ending(ls[i])) == Some(((first + i) as nat, texts[i])));
        }
    }
    assert(code.len() > 0) by {
        if code.len() == 0 {
            assert(ls =~= seq![]);
        }
    }
}

/// Fencing a code and parsing the result gives the tag and the code back.
pub proof fn fencing_then_parsing_gives_the_code_back(n: nat, tag: Seq<char>, code: Seq<char>)
    requires
        n >= 3,
        !tag.contains('\n'),
        tag.len() > 0 ==> tag[0] != '`',
    ensures
        fenced_code_block(
            backticks(n) + tag + seq!['\n'] + code + seq!['\n'] + backticks(n) + seq!['\n'],
        ) == Some((tag, code)),
{
    let s = backticks(n) + tag + seq!['\n'] + code + seq!['\n'] + backticks(n) + seq!['\n'];
    let rest = s.skip(n as int);
    let closing = seq!['\n'] + backticks(n) + seq!['\n'];
    assert(s[n as int] == (if tag.len() > 0 {
        tag[0]
    } else {
        '\n'
    }));
    lemma_leading_backticks_are(s, n);
    assert(s.take(n as int) =~= backticks(n));
    assert(rest =~= tag + seq!['\n'] + (code + closing));
    lemma_before_first_in_sum(tag, '\n', code + closing);
    let after_tag = rest.skip(tag.len() as int + 1);
    assert(after_tag =~= code + closing);
    assert(after_tag.subrange(after_tag.len() - closing.len(), after_tag.len() as int) =~= closing);
    assert(after_tag.take(after_tag.len() - closing.len()) =~= code);
}

/// A digit more at the end of a numeral stands for ten times the number and the digit.
pub proof fn numerals_count_in_tens(s: Seq<char>, c: char)
    requires
        '0' <= c && c <= '9',
    ensures
        numeral_value(s.push(c)) == 10 * numeral_value(s) + (c as nat - '0' as nat),
        numeral_value(Seq::empty()) == 0,
        is_digit(c),
{
    assert(s.push(c).drop_last() =~= s);
}

/// The digits are the ten characters from zero to nine.
pub proof fn there_are_ten_digits(c: char)
    ensures
        is_digit(c) <==> 0x30 <= c as nat && c as nat - 0x30 < 10,
{
}

/// The lines of a text make up the text. Every line but the last ends in a newline, and a
/// newline ends its line.
pub proof fn lines_make_up_the_text(s: Seq<char>)
    ensures
        lines(s).flatten() == s,
        forall|i: int|
            0 <= i < lines(s).len() ==> (#[trigger] lines(s)[i]).len() > 0
                && !lines(s)[i].drop_last().contains('\n'),
        forall|i: int| 0 <= i < lines(s).len() - 1 ==> (#[trigger] lines(s)[i]).last() == '\n',
    decreases s.len(),
{
    let ls = lines(s);
    if s.len() > 0 {
        let n = first_line_length(s) as int;
        let line = s.take(n);
        let rest = s.skip(n);
        text::cutting_at_the_first(s, '\n');
        let head = text::before_first(s, '\n');
        lines_make_up_the_text(rest);
        assert(ls == seq![line] + lines(rest));
        assert(ls[0] == line);
        assert(ls.drop_first() =~= lines(rest));
        assert(ls.flatten() == line + lines(rest).flatten());
        assert(line + rest =~= s);
        assert(!line.drop_last().contains('\n')) by {
            assert forall|i: int| 0 <= i < line.drop_last().len() implies line.drop_last()[i]
                != '\n' by {
                assert(i < head.len());
                assert(head[i] == s[i]) by {
                    assert(s.subrange(0, head.len() as int)[i] == s[i]);
                }
                assert(head.contains(head[i]));
            }
        }
        assert forall|i: int| 0 <= i < ls.len() implies (#[trigger] ls[i]).len() > 0
            && !ls[i].drop_last().contains('\n') by {
            if i > 0 {
                assert(ls[i] == lines(rest)[i - 1]);
            }
        }
        assert forall|i: int| 0 <= i < ls.len() - 1 implies (#[trigger] ls[i]).last() == '\n' by {
            if i > 0 {
                assert(ls[i] == lines(rest)[i - 1]);
            } else {
                if rest.len() == 0 {
                    assert(lines(rest) =~= seq![]);
                }
                assert(n < s.len());
                assert(head.len() < s.len());
            }
        }
    } else {
        assert(ls =~= seq![]);
        assert(ls.flatten() =~= s);
    }
}

/// A line loses its newline, and the carriage return before it, and nothing else.
pub proof fn lines_lose_their_endings(text: Seq<char>)
    requires
        text.len() == 0 || (text.last() != '\n' && text.last() != '\r'),
    ensures
        without_ending(text) == text,
        without_ending(text.push('\n')) == text,
        without_ending(text.push('\r').push('\n')) == text,
        without_ending(text.push('\r')) == text,
{
    assert(text.push('\n').drop_last() =~= text);
    assert(text.push('\r').drop_last() =~= text);
    assert(text.push('\r').push('\n').drop_last() =~= text.push('\r'));
}

/// A line that parses is spaces and digits, a tab, and the text; the digits stand for the
/// number. A line without a tab does not parse.
pub proof fn a_parsed_line_has_a_number_and_a_tab(line: Seq<char>) -> (prefix: Seq<char>)
    ensures
        numbered_line(line) matches Some((number, text)) ==> {
            &&& line == prefix + seq!['\t'] + text
            &&& forall|i: int|
                0 <= i < prefix.len() ==> (#[trigger] prefix[i]) == ' ' || ('0' <= prefix[i]
                    && prefix[i] <= '9')
            &&& text::trimmed(prefix).len() > 0
            &&& forall|i: int|
                0 <= i < text::trimmed(prefix).len() ==> (#[trigger] text::trimmed(prefix)[i])
                    != ' '
            &&& number == numeral_value(text::trimmed(prefix))
            &&& number <= u32::MAX
        },
        !line.contains('\t') ==> numbered_line(line) is None,
{
    let prefix = text::before_first(line, '\t');
    text::cutting_at_the_first(line, '\t');
    if let Some((number, text)) = numbered_line(line) {
        assert(line.subrange(0, prefix.len() as int) =~= prefix);
        assert(line =~= prefix + seq!['\t'] + text);
        assert forall|i: int| 0 <= i < text::trimmed(prefix).len() implies (
        #[trigger] text::trimmed(prefix)[i]) != ' ' by {
            assert(is_digit(text::trimmed(prefix)[i]));
        }
    }
    prefix
}

/// Numbered lines parse exactly where each number is one more than the number before it.
pub proof fn only_numbers_that_count_on_parse(
    texts: Seq<Seq<char>>,
    pads: Seq<nat>,
    numbers: Seq<nat>,
)
    requires
        texts.len() > 0,
        pads.len() == texts.len(),
        numbers.len() == texts.len(),
        forall|i: int| 0 <= i < numbers.len() ==> (#[trigger] numbers[i]) <= u32::MAX,
        forall|i: int|
            0 <= i < texts.len() ==> !(#[trigger] texts[i]).contains('\n') && (texts[i].len() == 0
                || texts[i].last() != '\r'),
    ensures
        ({
            let code = text::joined(
                Seq::new(
                    texts.len(),
                    |i: int|
                        spaces(pads[i]) + text::decimal(numbers[i]) + seq!['\t'] + texts[i],
                ),
                seq!['\n'],
            );
            numbered_code(code) is Some <==> forall|i: int|
                0 <= i < numbers.len() ==> #[trigger] numbers[i] == numbers[0] + i
        }),
{
    let parts = Seq::new(
        texts.len(),
        |i: int| spaces(pads[i]) + text::decimal(numbers[i]) + seq!['\t'] + texts[i],
    );
    let code = text::joined(parts, seq!['\n']);
    assert forall|i: int| 0 <= i < parts.len() implies !(#[trigger] parts[i]).contains('\n') by {
        let part = parts[i];
        let d = text::decimal(numbers[i]);
        decimal_numeral_stands_for_its_number(numbers[i]);
        assert forall|j: int| 0 <= j < part.len() implies part[j] != '\n' by {
            if j < pads[i] {
            } else if j < pads[i] + d.len() {
                assert(is_digit(d[j - pads[i]]));
            } else if j > pads[i] + d.len() {
                assert(part[j] == texts[i][j - pads[i] - d.len() - 1]);
                assert(texts[i].contains(part[j]));
            }
        }
    }
    lemma_lines_of_joined(parts);
    let ls = lines(code);
    assert forall|i: int| 0 <= i < ls.len() implies #[trigger] numbered_line(
        without_ending(ls[i]),
    ) == Some((numbers[i], texts[i])) by {
        lemma_numbered_line_of(pads[i], numbers[i], texts[i], false, i < parts.len() - 1);
        assert(with_number(pads[i], numbers[i], texts[i], false) =~= parts[i]);
    }
    assert(code.len() > 0) by {
        if code.len() == 0 {
            assert(ls =~= seq![]);
        }
    }
    assert(numbered_line(without_ending(ls[0])) == Some((numbers[0], texts[0])));
    if contiguous(ls) {
        assert forall|i: int| 0 <= i < numbers.len() implies #[trigger] numbers[i] == numbers[0]
            + i by {
            assert(numbered_line(without_ending(ls[i])) is Some);
        }
    }
    if forall|i: int| 0 <= i < numbers.len() ==> #[trigger] numbers[i] == numbers[0] + i {
        assert forall|i: int| 0 <= i < ls.len() implies (#[trigger] numbered_line(
            without_ending(ls[i]),
        )) is Some && line_number(without_ending(ls[i])) == line_number(without_ending(ls[0]))
            + i by {
            assert(numbers[i] == numbers[0] + i);
        }
        assert(contiguous(ls));
    }
}

/// What parses as one fenced code block is a fence of three or more backticks, the tag, the
/// code on lines of its own, and the same fence again at the end.
pub proof fn what_parses_is_fenced(s: Seq<char>) -> (n: nat)
    ensures
        fenced_code_block(s) matches Some((tag, code)) ==> {
            &&& n >= 3
            &&& s == backticks(n) + tag + seq!['\n'] + code + seq!['\n'] + backticks(n)
                + seq!['\n']
            &&& !tag.contains('\n')
            &&& tag.len() > 0 ==> tag[0] != '`'
        },
{
    let n = leading_backticks(s);
    lemma_backticks_lead(s);
    if let Some((tag, code)) = fenced_code_block(s) {
        let rest = s.skip(n as int);
        text::cutting_at_the_first(rest, '\n');
        let after_tag = rest.skip(tag.len() as int + 1);
        let closing = seq!['\n'] + s.take(n as int) + seq!['\n'];
        assert(s.take(n as int) =~= backticks(n));
        assert(rest.subrange(0, tag.len() as int) =~= tag);
        assert(rest =~= tag + seq!['\n'] + after_tag);
        assert(after_tag =~= code + closing);
        assert(s =~= backticks(n) + rest);
        assert(s =~= backticks(n) + tag + seq!['\n'] + code + seq!['\n'] + backticks(n)
            + seq!['\n']);
        if tag.len() > 0 {
            assert(tag[0] == s[n as int]);
        }
    }
    n
}

proof fn lemma_backticks_lead(s: Seq<char>)
    ensures
        leading_backticks(s) <= s.len(),
        forall|i: int| 0 <= i < leading_backticks(s) ==> s[i] == '`',
        leading_backticks(s) < s.len() ==> s[leading_backticks(s) as int] != '`',
    decreases s.len(),
{
    if s.len() > 0 && s[0] == '`' {
        let rest = s.drop_first();
        lemma_backticks_lead(rest);
        let n = leading_backticks(s);
        assert forall|i: int| 0 <= i < n implies s[i] == '`' by {
            if i > 0 {
                assert(rest[i - 1] == s[i]);
            }
        }
        if n < s.len() {
            assert(rest[n - 1] == s[n as int]);
        }
    }
}

/// A Markdown text that is one fenced code block with numbered lines gives the lines without
/// their numbers, the number of the first one, and how many there are.
pub proof fn fenced_numbered_code_reads_back(
    n: nat,
    tag: Seq<char>,
    texts: Seq<Seq<char>>,
    pads: Seq<nat>,
    first: nat,
)
    requires
        n >= 3,
        !tag.contains('\n'),
        tag.len() > 0 ==> tag[0] != '`',
        texts.len() > 0,
        pads.len() == texts.len(),
        first + texts.len() - 1 <= u32::MAX,
        forall|i: int|
            0 <= i < texts.len() ==> !(#[trigger] texts[i]).contains('\n') && (texts[i].len() == 0
                || texts[i].last() != '\r'),
    ensures
        numbered_code_block(
            backticks(n) + tag + seq!['\n'] + numbered_text(texts, pads, first, false, false)
                + seq!['\n'] + backticks(n) + seq!['\n'],
        ) == Some((text::joined(texts, seq!['\n']), first, texts.len())),
{
    let code = numbered_text(texts, pads, first, false, false);
    fencing_then_parsing_gives_the_code_back(n, tag, code);
    numbering_then_parsing_gives_the_code_back(texts, pads, first, false, false);
}

/// A numbered line is its spaces, its number, a tab, its text and its carriage return.
pub proof fn a_numbered_line_is_written_out(pad: nat, number: nat, text: Seq<char>)
    ensures
        with_number(pad, number, text, false) == spaces(pad) + text::decimal(number) + seq!['\t']
            + text,
        with_number(pad, number, text, true) == with_number(pad, number, text, false).push('\r'),
        spaces(pad).len() == pad,
        forall|i: int| 0 <= i < pad ==> spaces(pad)[i] == ' ',
        backticks(pad).len() == pad,
        forall|i: int| 0 <= i < pad ==> backticks(pad)[i] == '`',
{
    assert(with_number(pad, number, text, false) =~= spaces(pad) + text::decimal(number) + seq![
        '\t',
    ] + text);
    assert(with_number(pad, number, text, true) =~= with_number(pad, number, text, false).push(
        '\r',
    ));
}

/// Lines are contiguous where each has a number, one more than that of the line before.
pub proof fn contiguous_lines_count_on(ls: Seq<Seq<char>>, i: int)
    requires
        contiguous(ls),
        0 <= i < ls.len(),
    ensures
        numbered_line(without_ending(ls[i])) is Some,
        i > 0 ==> line_number(without_ending(ls[i])) == line_number(without_ending(ls[i - 1])) + 1,
{
    assert(numbered_line(without_ending(ls[i])) is Some);
    if i > 0 {
        assert(numbered_line(without_ending(ls[i - 1])) is Some);
    }
}

} // verus!
