//! Building and taking apart text, specified over sequences of characters.

use vstd::prelude::*;
use vstd::string::*;

verus! {

/// The decimal digit of a number below ten.
pub open spec fn digit(d: nat) -> char {
    if d == 0 {
        '0'
    } else if d == 1 {
        '1'
    } else if d == 2 {
        '2'
    } else if d == 3 {
        '3'
    } else if d == 4 {
        '4'
    } else if d == 5 {
        '5'
    } else if d == 6 {
        '6'
    } else if d == 7 {
        '7'
    } else if d == 8 {
        '8'
    } else {
        '9'
    }
}

/// The decimal numeral of `n`, without leading zeros.
pub open spec fn decimal(n: nat) -> Seq<char>
    decreases n,
{
    if n < 10 {
        seq![digit(n)]
    } else {
        decimal(n / 10).push(digit(n % 10))
    }
}

/// The characters with the Unicode property White_Space.
pub open spec fn white_space(c: char) -> bool {
    ||| 0x9 <= c as u32 && c as u32 <= 0xd
    ||| c as u32 == 0x20
    ||| c as u32 == 0x85
    ||| c as u32 == 0xa0
    ||| c as u32 == 0x1680
    ||| 0x2000 <= c as u32 && c as u32 <= 0x200a
    ||| c as u32 == 0x2028
    ||| c as u32 == 0x2029
    ||| c as u32 == 0x202f
    ||| c as u32 == 0x205f
    ||| c as u32 == 0x3000
}

/// `s` without the white space at its end.
pub open spec fn trimmed_end(s: Seq<char>) -> Seq<char>
    decreases s.len(),
{
    if s.len() > 0 && white_space(s.last()) {
        trimmed_end(s.drop_last())
    } else {
        s
    }
}

/// `s` without the white space at its start.
pub open spec fn trimmed_start(s: Seq<char>) -> Seq<char>
    decreases s.len(),
{
    if s.len() > 0 && white_space(s[0]) {
        trimmed_start(s.drop_first())
    } else {
        s
    }
}

/// `s` without the white space at both ends.
pub open spec fn trimmed(s: Seq<char>) -> Seq<char> {
    trimmed_start(trimmed_end(s))
}

/// Whether `s` holds white space only.
pub open spec fn blank(s: Seq<char>) -> bool {
    forall|i: int| 0 <= i < s.len() ==> white_space(#[trigger] s[i])
}

/// The parts one after another with `separator` between neighbours.
pub open spec fn joined(parts: Seq<Seq<char>>, separator: Seq<char>) -> Seq<char>
    decreases parts.len(),
{
    if parts.len() == 0 {
        seq![]
    } else if parts.len() == 1 {
        parts[0]
    } else {
        joined(parts.drop_last(), separator) + separator + parts.last()
    }
}

/// The part of `s` before the first `c`, all of `s` where there is none.
pub open spec fn before_first(s: Seq<char>, c: char) -> Seq<char>
    decreases s.len(),
{
    if s.len() == 0 || s[0] == c {
        seq![]
    } else {
        seq![s[0]] + before_first(s.drop_first(), c)
    }
}

/// The characters of each text.
pub open spec fn views(texts: Seq<String>) -> Seq<Seq<char>> {
    Seq::new(texts.len(), |i: int| texts[i]@)
}

/// The characters of a text that may be missing.
pub open spec fn optional_view(text: Option<String>) -> Option<Seq<char>> {
    match text {
        Some(t) => Some(t@),
        None => None,
    }
}

/// An optional text in front of a fallback.
pub open spec fn text_or(text: Option<String>, fallback: Seq<char>) -> Seq<char> {
    match text {
        Some(t) => t@,
        None => fallback,
    }
}

/// The two texts one after another.
pub fn concat2(a: &str, b: &str) -> (r: String)
    ensures
        r@ == a@ + b@,
{
    let mut r = a.to_owned();
    r.append(b);
    r
}

/// The three texts one after another.
pub fn concat3(a: &str, b: &str, c: &str) -> (r: String)
    ensures
        r@ == a@ + b@ + c@,
{
    let mut r = a.to_owned();
    r.append(b);
    r.append(c);
    r
}

/// The two texts with brackets round the second: `a (b)`.
pub fn bracketed(a: &str, b: &str) -> (r: String)
    ensures
        r@ == a@ + " ("@ + b@ + ")"@,
{
    let mut r = concat3(a, " (", b);
    r.append(")");
    r
}

/// Whether the two texts hold the same characters.
pub fn same_text(a: &str, b: &str) -> (r: bool)
    ensures
        r == (a@ == b@),
{
    let x: String = a.to_owned();
    let y: String = b.to_owned();
    x == y
}

/// The characters of a text in order.
pub fn characters(s: &str) -> (v: Vec<char>)
    ensures
        v@ == s@,
{
    let mut v: Vec<char> = Vec::new();
    for c in it: s.chars()
        invariant
            it.seq() == s@,
            v@ == s@.take(it.index() as int),
    {
        v.push(c);
        assert(s@.take(it.index() + 1) == s@.take(it.index() as int).push(c));
    }
    assert(s@.take(s@.len() as int) == s@);
    v
}

fn digit_text(d: u64) -> (r: &'static str)
    requires
        d < 10,
    ensures
        r@ == seq![digit(d as nat)],
{
    proof {
        reveal_strlit("0");
        reveal_strlit("1");
        reveal_strlit("2");
        reveal_strlit("3");
        reveal_strlit("4");
        reveal_strlit("5");
        reveal_strlit("6");
        reveal_strlit("7");
        reveal_strlit("8");
        reveal_strlit("9");
    }
    let r = match d {
        0 => "0",
        1 => "1",
        2 => "2",
        3 => "3",
        4 => "4",
        5 => "5",
        6 => "6",
        7 => "7",
        8 => "8",
        _ => "9",
    };
    assert(r@ =~= seq![digit(d as nat)]);
    r
}

/// The decimal numeral of `n`.
pub fn number(n: u64) -> (r: String)
    ensures
        r@ == decimal(n as nat),
    decreases n,
{
    if n < 10 {
        digit_text(n).to_owned()
    } else {
        let mut r = number(n / 10);
        r.append(digit_text(n % 10));
        assert(r@ =~= decimal((n / 10) as nat).push(digit((n % 10) as nat)));
        r
    }
}

/// The decimal numeral of a count.
pub fn count(n: usize) -> (r: String)
    ensures
        r@ == decimal(n as nat),
{
    number(n as u64)
}

/// A text followed by a count.
pub fn with_count(prefix: &str, n: usize) -> (r: String)
    ensures
        r@ == prefix@ + decimal(n as nat),
{
    let mut r = prefix.to_owned();
    r.append(count(n).as_str());
    r
}

/// Whether `c` has the Unicode property White_Space.
pub fn is_white_space(c: char) -> (r: bool)
    ensures
        r == white_space(c),
{
    let u: u32 = c as u32;
    (0x9 <= u && u <= 0xd) || u == 0x20 || u == 0x85 || u == 0xa0 || u == 0x1680 || (0x2000 <= u
        && u <= 0x200a) || u == 0x2028 || u == 0x2029 || u == 0x202f || u == 0x205f || u == 0x3000
}

/// Appends a character: `std`'s `String::push` puts it at the end of the string.
pub assume_specification[ String::push ](s: &mut String, c: char)
    ensures
        final(s)@ == old(s)@.push(c),
;

/// Appends the characters to the text.
pub fn push_all(s: &mut String, chars: &[char])
    ensures
        final(s)@ == old(s)@ + chars@,
{
    let ghost before = s@;
    let mut i: usize = 0;
    assert(s@ =~= before + chars@.take(0));
    while i < chars.len()
        invariant
            i <= chars@.len(),
            s@ == before + chars@.take(i as int),
        decreases chars@.len() - i,
    {
        s.push(chars[i]);
        i = i + 1;
        assert(s@ =~= before + chars@.take(i as int));
    }
    assert(chars@.take(i as int) == chars@);
}

/// The characters without the white space at both ends.
pub fn trim_chars<'a>(s: &'a [char]) -> (r: &'a [char])
    ensures
        r@ == trimmed(s@),
{
    let n = trimmed_end_length(s);
    let t = vstd::slice::slice_subrange(s, 0, n);
    assert(t@ == s@.take(n as int));
    let mut i: usize = 0;
    assert(t@.subrange(0, t@.len() as int) == t@);
    while i < t.len() && is_white_space(t[i])
        invariant
            i <= t@.len(),
            trimmed_start(t@.subrange(i as int, t@.len() as int)) == trimmed_start(t@),
        decreases t@.len() - i,
    {
        assert(t@.subrange(i as int, t@.len() as int).drop_first() == t@.subrange(
            i + 1,
            t@.len() as int,
        ));
        i = i + 1;
    }
    vstd::slice::slice_subrange(t, i, t.len())
}

/// The number of characters before the first `c`, all of them where there is none.
pub fn length_until(s: &[char], c: char) -> (n: usize)
    ensures
        n <= s@.len(),
        s@.take(n as int) == before_first(s@, c),
        n < s@.len() ==> s@[n as int] == c,
        n == before_first(s@, c).len(),
{
    let mut i: usize = 0;
    assert(s@.subrange(0, s@.len() as int) == s@);
    assert(s@.take(0) + before_first(s@, c) =~= before_first(s@, c));
    while i < s.len() && s[i] != c
        invariant
            i <= s@.len(),
            before_first(s@, c) == s@.take(i as int) + before_first(
                s@.subrange(i as int, s@.len() as int),
                c,
            ),
        decreases s@.len() - i,
    {
        let ghost rest = s@.subrange(i as int, s@.len() as int);
        assert(rest.drop_first() == s@.subrange(i + 1, s@.len() as int));
        assert(s@.take(i as int) + (seq![rest[0]] + before_first(rest.drop_first(), c)) =~= s@.take(
            i + 1,
        ) + before_first(rest.drop_first(), c));
        i = i + 1;
    }
    assert(s@.take(i as int) =~= before_first(s@, c));
    i
}

/// The number of characters left when the white space at the end is dropped.
pub fn trimmed_end_length(s: &[char]) -> (n: usize)
    ensures
        n <= s@.len(),
        s@.take(n as int) == trimmed_end(s@),
{
    let mut n: usize = s.len();
    assert(s@.take(n as int) == s@);
    while n > 0 && is_white_space(s[n - 1])
        invariant
            n <= s@.len(),
            trimmed_end(s@.take(n as int)) == trimmed_end(s@),
        decreases n,
    {
        assert(s@.take(n as int).drop_last() == s@.take(n - 1));
        n = n - 1;
    }
    n
}

/// The text without the white space at its end.
pub fn trim_end<'a>(s: &'a str) -> (r: &'a str)
    ensures
        r@ == trimmed_end(s@),
{
    let v = characters(s);
    let n = trimmed_end_length(v.as_slice());
    let r = s.substring_char(0, n);
    assert(s@.subrange(0, n as int) == s@.take(n as int));
    r
}

/// The text without the white space at both ends.
pub fn trim<'a>(s: &'a str) -> (r: &'a str)
    ensures
        r@ == trimmed(s@),
{
    let t = trim_end(s);
    let v = characters(t);
    let mut i: usize = 0;
    assert(t@.subrange(0, t@.len() as int) == t@);
    while i < v.len() && is_white_space(v[i])
        invariant
            v@ == t@,
            i <= v@.len(),
            trimmed_start(t@.subrange(i as int, t@.len() as int)) == trimmed_start(t@),
        decreases v@.len() - i,
    {
        assert(t@.subrange(i as int, t@.len() as int).drop_first() == t@.subrange(
            i + 1,
            t@.len() as int,
        ));
        i = i + 1;
    }
    t.substring_char(i, v.len())
}

proof fn lemma_trimmed_end_of_blank(s: Seq<char>)
    ensures
        blank(s) ==> trimmed_end(s).len() == 0,
        trimmed(s).len() == 0 ==> blank(s),
        trimmed_end(s).is_prefix_of(s),
    decreases s.len(),
{
    if s.len() > 0 && white_space(s.last()) {
        lemma_trimmed_end_of_blank(s.drop_last());
        if trimmed(s).len() == 0 {
            assert forall|i: int| 0 <= i < s.len() implies white_space(#[trigger] s[i]) by {
                if i < s.len() - 1 {
                    assert(s.drop_last()[i] == s[i]);
                }
            }
        }
    } else {
        if blank(s) && s.len() > 0 {
            assert(white_space(s[s.len() - 1]));
        }
        lemma_trimmed_start_of_blank(s);
    }
}

proof fn lemma_trimmed_start_of_blank(s: Seq<char>)
    ensures
        trimmed_start(s).len() == 0 ==> blank(s),
    decreases s.len(),
{
    if s.len() > 0 && white_space(s[0]) {
        lemma_trimmed_start_of_blank(s.drop_first());
        if trimmed_start(s).len() == 0 {
            assert forall|i: int| 0 <= i < s.len() implies white_space(#[trigger] s[i]) by {
                if i > 0 {
                    assert(s.drop_first()[i - 1] == s[i]);
                }
            }
        }
    }
}

/// A text trims to nothing exactly where it holds white space only.
pub proof fn blank_text_trims_to_nothing(s: Seq<char>)
    ensures
        blank(s) <==> trimmed(s).len() == 0,
{
    lemma_trimmed_end_of_blank(s);
}

/// Whether the text trims to nothing.
pub fn is_blank(s: &str) -> (r: bool)
    ensures
        r == blank(s@),
{
    let r = trim(s).is_empty();
    proof {
        blank_text_trims_to_nothing(s@);
    }
    r
}

/// The parts one after another with `separator` between neighbours.
pub fn join(parts: &Vec<String>, separator: &str) -> (r: String)
    ensures
        r@ == joined(views(parts@), separator@),
{
    let mut r = String::new();
    let mut i: usize = 0;
    assert(views(parts@).take(0) =~= seq![]);
    while i < parts.len()
        invariant
            i <= parts@.len(),
            r@ == joined(views(parts@).take(i as int), separator@),
        decreases parts@.len() - i,
    {
        let ghost before = views(parts@).take(i as int);
        let ghost after = views(parts@).take(i + 1);
        assert(after.drop_last() == before);
        if i > 0 {
            r.append(separator);
        }
        r.append(parts[i].as_str());
        assert(r@ =~= joined(after, separator@));
        i = i + 1;
    }
    assert(views(parts@).take(i as int) == views(parts@));
    r
}

/// The part of the text before the first `c`, all of it where there is none.
pub fn until<'a>(s: &'a str, c: char) -> (r: &'a str)
    ensures
        r@ == before_first(s@, c),
{
    let v = characters(s);
    let n = length_until(v.as_slice(), c);
    let r = s.substring_char(0, n);
    assert(r@ =~= s@.take(n as int));
    r
}

/// A copy of an optional text.
pub fn copy_option(text: &Option<String>) -> (r: Option<String>)
    ensures
        r == *text,
{
    match text {
        Some(t) => Some(t.clone()),
        None => None,
    }
}

/// Whether the optional text is there and holds the characters of `other`.
pub fn option_is(text: &Option<String>, other: &str) -> (r: bool)
    ensures
        r == (optional_view(*text) == Some(other@)),
{
    match text {
        Some(t) => same_text(t.as_str(), other),
        None => false,
    }
}

/// The text behind a prefix, where the text starts with it.
pub open spec fn behind_prefix(s: Seq<char>, prefix: Seq<char>) -> Option<Seq<char>> {
    if s.len() >= prefix.len() && s.take(prefix.len() as int) == prefix {
        Some(s.skip(prefix.len() as int))
    } else {
        None
    }
}

/// The text before a suffix, where the text ends with it.
pub open spec fn before_suffix(s: Seq<char>, suffix: Seq<char>) -> Option<Seq<char>> {
    if s.len() >= suffix.len() && s.skip(s.len() - suffix.len()) == suffix {
        Some(s.take(s.len() - suffix.len()))
    } else {
        None
    }
}

/// A number in decimal digits, with a sign where it is negative.
pub open spec fn signed_decimal(n: int) -> Seq<char> {
    if n < 0 {
        "-"@ + decimal((-n) as nat)
    } else {
        decimal(n as nat)
    }
}

/// The characters of an optional reference to a text.
pub open spec fn reference_view(text: Option<&str>) -> Option<Seq<char>> {
    match text {
        Some(text) => Some(text@),
        None => None,
    }
}

/// The text behind a prefix, where the text starts with it.
pub fn strip_prefix<'a>(s: &'a str, prefix: &str) -> (r: Option<&'a str>)
    ensures
        reference_view(r) == behind_prefix(s@, prefix@),
{
    let length = s.unicode_len();
    let n = prefix.unicode_len();
    if length < n {
        return None;
    }
    assert(s@.subrange(0, n as int) =~= s@.take(n as int));
    assert(s@.subrange(n as int, length as int) =~= s@.skip(n as int));
    if same_text(s.substring_char(0, n), prefix) {
        Some(s.substring_char(n, length))
    } else {
        None
    }
}

/// The text before a suffix, where the text ends with it.
pub fn strip_suffix<'a>(s: &'a str, suffix: &str) -> (r: Option<&'a str>)
    ensures
        reference_view(r) == before_suffix(s@, suffix@),
{
    let length = s.unicode_len();
    let n = suffix.unicode_len();
    if length < n {
        return None;
    }
    let end = length - n;
    assert(s@.subrange(0, end as int) =~= s@.take(end as int));
    assert(s@.subrange(end as int, length as int) =~= s@.skip(end as int));
    if same_text(s.substring_char(end, length), suffix) {
        Some(s.substring_char(0, end))
    } else {
        None
    }
}

/// A number in decimal digits, with a sign where it is negative.
pub fn signed(n: i32) -> (r: String)
    ensures
        r@ == signed_decimal(n as int),
{
    if n < 0 {
        let magnitude: i64 = -(n as i64);
        concat2("-", number(magnitude as u64).as_str())
    } else {
        number(n as u64)
    }
}

/// Whether a text comes before another in the order of the dictionary, by characters.
pub open spec fn precedes(a: Seq<char>, b: Seq<char>) -> bool
    decreases a.len(),
{
    if b.len() == 0 {
        false
    } else if a.len() == 0 {
        true
    } else {
        a[0] < b[0] || (a[0] == b[0] && precedes(a.skip(1), b.skip(1)))
    }
}

/// Whether a text comes before another in the order of the dictionary.
pub fn comes_before(a: &str, b: &str) -> (r: bool)
    ensures
        r == precedes(a@, b@),
{
    let left = characters(a);
    let right = characters(b);
    let mut i: usize = 0;
    assert(a@.skip(0) =~= a@);
    assert(b@.skip(0) =~= b@);
    while i < left.len() && i < right.len()
        invariant
            left@ == a@,
            right@ == b@,
            i <= left@.len(),
            i <= right@.len(),
            precedes(a@, b@) == precedes(a@.skip(i as int), b@.skip(i as int)),
        decreases left@.len() - i,
    {
        assert(a@.skip(i as int)[0] == left@[i as int]);
        assert(b@.skip(i as int)[0] == right@[i as int]);
        assert(a@.skip(i as int).skip(1) =~= a@.skip(i + 1));
        assert(b@.skip(i as int).skip(1) =~= b@.skip(i + 1));
        if left[i] != right[i] {
            return left[i] < right[i];
        }
        i = i + 1;
    }
    i < right.len()
}

/// The order of the dictionary is a strict order: nothing comes before itself, and what comes
/// before a text that comes before another comes before that too.
pub proof fn dictionary_order_is_strict(a: Seq<char>, b: Seq<char>, c: Seq<char>)
    ensures
        !precedes(a, a),
        precedes(a, b) && precedes(b, c) ==> precedes(a, c),
    decreases a.len() + b.len() + c.len(),
{
    if a.len() > 0 {
        if b.len() > 0 && c.len() > 0 {
            dictionary_order_is_strict(a.skip(1), b.skip(1), c.skip(1));
        } else {
            dictionary_order_is_strict(a.skip(1), seq![], seq![]);
        }
    }
}

/// Of two different texts one comes before the other.
pub proof fn dictionary_order_is_total(a: Seq<char>, b: Seq<char>)
    requires
        a != b,
    ensures
        precedes(a, b) || precedes(b, a),
    decreases a.len(),
{
    if a.len() > 0 && b.len() > 0 && a[0] == b[0] {
        if a.skip(1) == b.skip(1) {
            assert(a =~= seq![a[0]] + a.skip(1));
            assert(b =~= seq![b[0]] + b.skip(1));
        }
        dictionary_order_is_total(a.skip(1), b.skip(1));
    } else if a.len() == 0 && b.len() == 0 {
        assert(a =~= b);
    }
}

/// Trimming takes away white space only, and all of it at both ends.
pub proof fn trimming_takes_the_white_space_at_both_ends(s: Seq<char>) -> (bounds: (int, int))
    ensures
        0 <= bounds.0 <= bounds.1 <= s.len(),
        trimmed(s) == s.subrange(bounds.0, bounds.1),
        forall|i: int| 0 <= i < bounds.0 ==> white_space(#[trigger] s[i]),
        forall|i: int| bounds.1 <= i < s.len() ==> white_space(#[trigger] s[i]),
        bounds.0 < bounds.1 ==> !white_space(s[bounds.0]) && !white_space(s[bounds.1 - 1]),
{
    let end = lemma_trimmed_end_is(s);
    let rest = s.take(end);
    let start = lemma_trimmed_start_is(rest);
    assert(rest.skip(start) =~= s.subrange(start, end));
    assert forall|i: int| 0 <= i < start implies white_space(#[trigger] s[i]) by {
        assert(rest[i] == s[i]);
    }
    if start < end {
        assert(rest[start] == s[start]);
    }
    (start, end)
}

proof fn lemma_trimmed_end_is(s: Seq<char>) -> (end: int)
    ensures
        0 <= end <= s.len(),
        trimmed_end(s) == s.take(end),
        forall|i: int| end <= i < s.len() ==> white_space(#[trigger] s[i]),
        end > 0 ==> !white_space(s[end - 1]),
    decreases s.len(),
{
    if s.len() > 0 && white_space(s.last()) {
        let end = lemma_trimmed_end_is(s.drop_last());
        assert(s.drop_last().take(end) =~= s.take(end));
        assert forall|i: int| end <= i < s.len() implies white_space(#[trigger] s[i]) by {
            if i < s.len() - 1 {
                assert(s.drop_last()[i] == s[i]);
            }
        }
        end
    } else {
        assert(s.take(s.len() as int) =~= s);
        s.len() as int
    }
}

proof fn lemma_trimmed_start_is(s: Seq<char>) -> (start: int)
    ensures
        0 <= start <= s.len(),
        trimmed_start(s) == s.skip(start),
        forall|i: int| 0 <= i < start ==> white_space(#[trigger] s[i]),
        start < s.len() ==> !white_space(s[start]),
    decreases s.len(),
{
    if s.len() > 0 && white_space(s[0]) {
        let start = lemma_trimmed_start_is(s.drop_first()) + 1;
        assert(s.drop_first().skip(start - 1) =~= s.skip(start));
        assert forall|i: int| 0 <= i < start implies white_space(#[trigger] s[i]) by {
            if i > 0 {
                assert(s.drop_first()[i - 1] == s[i]);
            }
        }
        if start < s.len() {
            assert(s.drop_first()[start - 1] == s[start]);
        }
        start
    } else {
        assert(s.skip(0) =~= s);
        0
    }
}

/// The white space among the ASCII characters: the space, and the control characters from the
/// tab to the carriage return. Letters, digits and signs are none.
pub proof fn white_space_among_ascii(c: char)
    requires
        (c as u32) < 0x80,
    ensures
        white_space(c) <==> c == ' ' || c == '\t' || c == '\n' || c == '\r' || c as u32 == 0xb
            || c as u32 == 0xc,
        is_sign_or_letter(c) ==> !white_space(c),
{
}

/// Whether `c` is a visible ASCII character.
pub open spec fn is_sign_or_letter(c: char) -> bool {
    '!' <= c && c <= '~'
}

/// The white space beyond the ASCII characters: the next line, the no-break spaces, the spaces
/// of a fixed width, and the separators of lines and paragraphs.
pub proof fn white_space_beyond_ascii(c: char)
    requires
        c as u32 >= 0x80,
    ensures
        white_space(c) <==> seq![
            0x85u32,
            0xa0u32,
            0x1680u32,
            0x2028u32,
            0x2029u32,
            0x202fu32,
            0x205fu32,
            0x3000u32,
        ].contains(c as u32) || 0x1fff < (c as u32) && (c as u32) < 0x200b,
{
    let listed = seq![
        0x85u32,
        0xa0u32,
        0x1680u32,
        0x2028u32,
        0x2029u32,
        0x202fu32,
        0x205fu32,
        0x3000u32,
    ];
    assert(listed[0] == 0x85 && listed[1] == 0xa0 && listed[2] == 0x1680 && listed[3] == 0x2028
        && listed[4] == 0x2029 && listed[5] == 0x202f && listed[6] == 0x205f && listed[7]
        == 0x3000);
}

/// Two lists of parts that are joined one after the other read as their texts with the
/// separator between them. A single part is its own text, and no parts make no text.
pub proof fn joining_goes_part_by_part(
    first: Seq<Seq<char>>,
    second: Seq<Seq<char>>,
    part: Seq<char>,
    separator: Seq<char>,
)
    ensures
        first.len() > 0 && second.len() > 0 ==> joined(first + second, separator) == joined(
            first,
            separator,
        ) + separator + joined(second, separator),
        joined(seq![part], separator) == part,
        joined(Seq::empty(), separator).len() == 0,
    decreases second.len(),
{
    if first.len() > 0 && second.len() > 0 {
        let all = first + second;
        assert(all.drop_last() =~= first + second.drop_last());
        if second.len() == 1 {
            assert(all.drop_last() =~= first);
            assert(all.last() == second[0]);
        } else {
            joining_goes_part_by_part(first, second.drop_last(), part, separator);
            assert(all.last() == second.last());
            assert(joined(all, separator) =~= joined(first, separator) + separator + joined(
                second,
                separator,
            ));
        }
    }
}

/// What stands before the first `c` starts the text and holds no `c`, and a `c` comes behind
/// it unless it is the whole text.
pub proof fn cutting_at_the_first(s: Seq<char>, c: char)
    ensures
        before_first(s, c).is_prefix_of(s),
        !before_first(s, c).contains(c),
        before_first(s, c).len() < s.len() ==> s[before_first(s, c).len() as int] == c,
        !s.contains(c) ==> before_first(s, c) == s,
    decreases s.len(),
{
    let p = before_first(s, c);
    if s.len() > 0 && s[0] != c {
        let rest = s.drop_first();
        cutting_at_the_first(rest, c);
        let q = before_first(rest, c);
        assert forall|i: int| 0 <= i < p.len() implies p[i] == s[i] && p[i] != c by {
            if i > 0 {
                assert(p[i] == q[i - 1]);
                assert(q.contains(q[i - 1]));
                assert(q[i - 1] == rest[i - 1]);
            }
        }
        assert(s.subrange(0, p.len() as int) =~= p);
        if q.len() < rest.len() {
            assert(rest[q.len() as int] == s[p.len() as int]);
        }
        if !s.contains(c) {
            if rest.contains(c) {
                let i = choose|i: int| 0 <= i < rest.len() && rest[i] == c;
                assert(s[i + 1] == c);
            }
            assert(p =~= s);
        }
    } else {
        assert(s.subrange(0, 0) =~= p);
        if s.len() > 0 {
            assert(s.contains(s[0]));
        } else {
            assert(p =~= s);
        }
    }
}

/// A text that starts with a prefix is the prefix and what comes behind it, and what comes
/// behind the prefix of such a text is found. The same holds of suffixes.
pub proof fn prefixes_and_suffixes_come_off(s: Seq<char>, part: Seq<char>, rest: Seq<char>)
    ensures
        behind_prefix(part + rest, part) == Some(rest),
        behind_prefix(s, part) matches Some(found) ==> s == part + found,
        before_suffix(rest + part, part) == Some(rest),
        before_suffix(s, part) matches Some(found) ==> s == found + part,
{
    assert((part + rest).take(part.len() as int) =~= part);
    assert((part + rest).skip(part.len() as int) =~= rest);
    assert((rest + part).skip(rest.len() as int) =~= part);
    assert((rest + part).take(rest.len() as int) =~= rest);
    if let Some(found) = behind_prefix(s, part) {
        assert(s =~= part + found);
    }
    if let Some(found) = before_suffix(s, part) {
        assert(s =~= found + part);
    }
}

/// The numeral of a negative number is that of the positive one with a minus before it; a
/// number that is not negative has no sign.
pub proof fn a_minus_stands_before_negative_numbers(n: nat)
    ensures
        signed_decimal(n as int) == decimal(n),
        n > 0 ==> signed_decimal(-(n as int)) == seq!['-'] + decimal(n),
{
    reveal_strlit("-");
    assert("-"@ =~= seq!['-']);
}

/// Numerals have no leading zeros.
pub proof fn numerals_have_no_leading_zeros(n: nat)
    ensures
        decimal(n).len() > 0,
        n > 0 ==> decimal(n)[0] != '0',
    decreases n,
{
    if n >= 10 {
        numerals_have_no_leading_zeros(n / 10);
        assert(decimal(n)[0] == decimal(n / 10)[0]);
    }
}

/// In the order of the dictionary the first difference decides, and a text comes before the
/// longer ones that start with it.
pub proof fn the_first_difference_decides(
    start: Seq<char>,
    x: char,
    y: char,
    a: Seq<char>,
    b: Seq<char>,
)
    requires
        x < y,
    ensures
        precedes(start + seq![x] + a, start + seq![y] + b),
        !precedes(start + seq![y] + b, start + seq![x] + a),
        a.len() > 0 ==> precedes(start, start + a),
    decreases start.len(),
{
    let left = start + seq![x] + a;
    let right = start + seq![y] + b;
    if start.len() > 0 {
        let rest = start.skip(1);
        the_first_difference_decides(rest, x, y, a, b);
        assert(left.skip(1) =~= rest + seq![x] + a);
        assert(right.skip(1) =~= rest + seq![y] + b);
        assert((start + a).skip(1) =~= rest + a);
    } else {
        assert(left[0] == x && right[0] == y);
    }
}

/// The views of texts hold their characters, and an optional text that is missing has none.
pub proof fn views_hold_the_characters(texts: Seq<String>, i: int, text: String, fallback: Seq<char>)
    ensures
        views(texts).len() == texts.len(),
        0 <= i < texts.len() ==> views(texts)[i] == texts[i]@,
        optional_view(Some(text)) == Some(text@),
        optional_view(None) is None,
        text_or(Some(text), fallback) == text@,
        text_or(None, fallback) == fallback,
        reference_view(None) is None,
{
}

/// The digits stand in their order, from zero to nine.
pub proof fn digits_stand_in_order(d: nat)
    requires
        d < 10,
    ensures
        digit(d) as u32 == '0' as u32 + d,
{
}

/// A number is written with its last digit last; a number below ten is one digit.
pub proof fn the_last_digit_comes_last(n: nat, d: nat)
    requires
        d < 10,
    ensures
        decimal(d).len() == 1,
        decimal(d)[0] as u32 == '0' as u32 + d,
        n > 0 ==> decimal(10 * n + d) == decimal(n) + decimal(d),
{
    if n > 0 {
        assert((10 * n + d) / 10 == n && (10 * n + d) % 10 == d);
        assert(decimal(10 * n + d) =~= decimal(n) + decimal(d));
    }
}

} // verus!
