//! Character-level text scanning shared by the parsers of spooler output.
//!
//! Every function is specified over the `Seq<char>` view of its arguments.

use vstd::prelude::*;

verus! {

/// Whether `c` separates words: the characters with the Unicode property
/// `White_Space`.
pub open spec fn is_space(c: char) -> bool {
    let n = c as u32;
    ||| 0x09 <= n <= 0x0D
    ||| n == 0x20
    ||| n == 0x85
    ||| n == 0xA0
    ||| n == 0x1680
    ||| 0x2000 <= n <= 0x200A
    ||| n == 0x2028
    ||| n == 0x2029
    ||| n == 0x202F
    ||| n == 0x205F
    ||| n == 0x3000
}

/// Whether `pat` stands in `text` at index `at`.
pub open spec fn occurs_at(text: Seq<char>, pat: Seq<char>, at: int) -> bool {
    &&& 0 <= at
    &&& at + pat.len() <= text.len()
    &&& text.subrange(at, at + pat.len()) == pat
}

/// Whether `text` begins with `pat`.
pub open spec fn has_prefix(text: Seq<char>, pat: Seq<char>) -> bool {
    occurs_at(text, pat, 0)
}

/// Whether `pat` stands somewhere in `text`.
pub open spec fn occurs_in(text: Seq<char>, pat: Seq<char>) -> bool {
    exists|at: int| occurs_at(text, pat, at)
}

/// The index of the first line feed of `text` at or after `from`; the
/// length of `text` where there is none.
pub open spec fn line_end(text: Seq<char>, from: int) -> int
    decreases text.len() - from,
{
    if from < 0 || from >= text.len() {
        text.len() as int
    } else if text[from] == '\n' {
        from
    } else {
        line_end(text, from + 1)
    }
}

/// The line of `text` that starts at `from`: up to the next line feed, and
/// without the carriage return that stands directly before that line feed.
pub open spec fn line_at(text: Seq<char>, from: int) -> Seq<char> {
    let end = line_end(text, from);
    if end < text.len() && from < end && text[end - 1] == '\r' {
        text.subrange(from, end - 1)
    } else {
        text.subrange(from, end)
    }
}

/// The lines of `text` from index `from` on.
pub open spec fn lines_from(text: Seq<char>, from: int) -> Seq<Seq<char>>
    decreases text.len() - from,
    via lines_from_decreases
{
    if 0 <= from < text.len() {
        if line_end(text, from) < text.len() {
            seq![line_at(text, from)] + lines_from(text, line_end(text, from) + 1)
        } else {
            seq![line_at(text, from)]
        }
    } else {
        Seq::empty()
    }
}

#[via_fn]
proof fn lines_from_decreases(text: Seq<char>, from: int) {
    if 0 <= from < text.len() {
        lemma_line_end(text, from);
    }
}

/// The lines of `text`. A line ends at a line feed or at the end of the
/// text; a line feed at the very end starts no further line.
pub open spec fn lines(text: Seq<char>) -> Seq<Seq<char>> {
    lines_from(text, 0)
}

/// The first index at or after `from` whose character is no space.
pub open spec fn skip_spaces(text: Seq<char>, from: int) -> int
    decreases text.len() - from,
{
    if 0 <= from < text.len() && is_space(text[from]) {
        skip_spaces(text, from + 1)
    } else {
        from
    }
}

/// The first index at or after `from` whose character is a space.
pub open spec fn skip_word(text: Seq<char>, from: int) -> int
    decreases text.len() - from,
{
    if 0 <= from < text.len() && !is_space(text[from]) {
        skip_word(text, from + 1)
    } else {
        from
    }
}

/// The first word of `text`: its first maximal run of characters that are
/// no spaces. `None` where `text` holds only spaces.
pub open spec fn first_word(text: Seq<char>) -> Option<Seq<char>> {
    let start = skip_spaces(text, 0);
    if start < text.len() {
        Some(text.subrange(start, skip_word(text, start)))
    } else {
        None
    }
}

/// What follows `prefix` in `text`; `None` where `text` does not begin
/// with it.
pub open spec fn after_prefix(text: Seq<char>, prefix: Seq<char>) -> Option<Seq<char>> {
    if has_prefix(text, prefix) {
        Some(text.skip(prefix.len() as int))
    } else {
        None
    }
}

/// The index of the first `c` in `text` at or after `from`; the length of
/// `text` where there is none.
pub open spec fn position_of(text: Seq<char>, c: char, from: int) -> int
    decreases text.len() - from,
{
    if from < 0 || from >= text.len() {
        text.len() as int
    } else if text[from] == c {
        from
    } else {
        position_of(text, c, from + 1)
    }
}

/// What follows the first `c` in `text`; `None` where `text` holds no `c`.
pub open spec fn after_char(text: Seq<char>, c: char) -> Option<Seq<char>> {
    let at = position_of(text, c, 0);
    if at < text.len() {
        Some(text.skip(at + 1))
    } else {
        None
    }
}

/// The decimal numeral of `n`, without leading zeros.
pub open spec fn decimal(n: nat) -> Seq<char>
    decreases n,
{
    if n < 10 {
        seq!["0123456789"@[n as int]]
    } else {
        decimal(n / 10).push("0123456789"@[(n % 10) as int])
    }
}

/// Where a line ends: no line feed stands before the end, and one stands
/// at it unless the text is over.
pub proof fn lemma_line_end(text: Seq<char>, from: int)
    requires
        0 <= from <= text.len(),
    ensures
        from <= line_end(text, from) <= text.len(),
        forall|k: int| from <= k < line_end(text, from) ==> text[k] != '\n',
        line_end(text, from) < text.len() ==> text[line_end(text, from)] == '\n',
    decreases text.len() - from,
{
    if from < text.len() && text[from] != '\n' {
        lemma_line_end(text, from + 1);
    }
}

/// A piece of a piece of a text is a piece of the text.
pub proof fn lemma_occurs_in_piece(text: Seq<char>, piece: Seq<char>, pat: Seq<char>)
    requires
        occurs_in(text, piece),
        occurs_in(piece, pat),
    ensures
        occurs_in(text, pat),
{
    let a = choose|a: int| occurs_at(text, piece, a);
    let b = choose|b: int| occurs_at(piece, pat, b);
    assert(text.subrange(a + b, a + b + pat.len()) =~= text.subrange(
        a,
        a + piece.len(),
    ).subrange(b, b + pat.len()));
    assert(occurs_at(text, pat, a + b));
}

/// Every line of a text is a piece of it.
pub proof fn lemma_lines_occur(text: Seq<char>, from: int, k: int)
    requires
        0 <= from,
        0 <= k < lines_from(text, from).len(),
    ensures
        occurs_in(text, lines_from(text, from)[k]),
    decreases text.len() - from,
{
    lemma_line_end(text, from);
    let end = line_end(text, from);
    if k == 0 {
        let line = line_at(text, from);
        assert(text.subrange(from, from + line.len()) =~= line);
        assert(occurs_at(text, line, from));
    } else {
        lemma_lines_occur(text, end + 1, k - 1);
    }
}

/// The characters of `s`, in order.
pub fn chars_of(s: &str) -> (v: Vec<char>)
    ensures
        v@ == s@,
{
    let mut v: Vec<char> = Vec::new();
    for c in it: s.chars()
        invariant
            it.seq() == s@,
            v@ == it.seq().take(it.index() as int),
    {
        v.push(c);
    }
    v
}

/// Decides [`is_space`].
pub fn char_is_space(c: char) -> (b: bool)
    ensures
        b == is_space(c),
{
    let n: u32 = c as u32;
    (0x09 <= n && n <= 0x0D) || n == 0x20 || n == 0x85 || n == 0xA0 || n == 0x1680 || (0x2000 <= n
        && n <= 0x200A) || n == 0x2028 || n == 0x2029 || n == 0x202F || n == 0x205F || n == 0x3000
}

/// Decides [`occurs_at`] on character vectors.
pub fn matches_at(text: &Vec<char>, pat: &Vec<char>, at: usize) -> (b: bool)
    ensures
        b == occurs_at(text@, pat@, at as int),
{
    if pat.len() > text.len() || at > text.len() - pat.len() {
        return false;
    }
    let mut j: usize = 0;
    while j < pat.len()
        invariant
            at + pat.len() <= text.len(),
            j <= pat.len(),
            forall|k: int| 0 <= k < j ==> text@[at + k] == pat@[k],
        decreases pat.len() - j,
    {
        if text[at + j] != pat[j] {
            assert(text@.subrange(at as int, at + pat@.len())[j as int] == text@[at + j]);
            return false;
        }
        j += 1;
    }
    assert(text@.subrange(at as int, at + pat@.len()) =~= pat@);
    true
}

/// The least index at which `pat` stands in `text`, if there is one.
pub fn find(text: &Vec<char>, pat: &Vec<char>) -> (r: Option<usize>)
    ensures
        match r {
            Some(at) => occurs_at(text@, pat@, at as int) && forall|k: int|
                0 <= k < at ==> !occurs_at(text@, pat@, k),
            None => !occurs_in(text@, pat@),
        },
{
    if pat.len() > text.len() {
        return None;
    }
    let last: usize = text.len() - pat.len();
    let mut at: usize = 0;
    loop
        invariant
            last == text.len() - pat.len(),
            at <= last,
            forall|k: int| 0 <= k < at ==> !occurs_at(text@, pat@, k),
        decreases last - at,
    {
        if matches_at(text, pat, at) {
            return Some(at);
        }
        if at == last {
            return None;
        }
        at += 1;
    }
}

/// Whether `text` begins with `pat`.
pub fn starts_with(text: &str, pat: &str) -> (b: bool)
    ensures
        b == has_prefix(text@, pat@),
{
    let t = chars_of(text);
    let p = chars_of(pat);
    matches_at(&t, &p, 0)
}

/// Whether `pat` stands somewhere in `text`.
pub fn contains(text: &str, pat: &str) -> (b: bool)
    ensures
        b == occurs_in(text@, pat@),
{
    let t = chars_of(text);
    let p = chars_of(pat);
    find(&t, &p).is_some()
}

/// Splits `text` into its lines.
pub fn split_lines(text: &str) -> (out: Vec<String>)
    ensures
        out.deep_view() == lines(text@),
{
    let chars = chars_of(text);
    let mut out: Vec<String> = Vec::new();
    let mut start: usize = 0;
    while start < chars.len()
        invariant
            chars@ == text@,
            start <= chars.len(),
            lines(text@) == out.deep_view() + lines_from(text@, start as int),
        decreases chars.len() - start,
    {
        let mut end: usize = start;
        while end < chars.len() && chars[end] != '\n'
            invariant
                chars@ == text@,
                start <= end <= chars.len(),
                line_end(text@, start as int) == line_end(text@, end as int),
            decreases chars.len() - end,
        {
            end += 1;
        }
        let stop: usize = if end < chars.len() && start < end && chars[end - 1] == '\r' {
            end - 1
        } else {
            end
        };
        let line = String::from_str(text.substring_char(start, stop));
        let ghost before = out.deep_view();
        out.push(line);
        proof {
            assert(line@ == line_at(text@, start as int));
            assert(out.deep_view() =~= before.push(line@));
            assert(before + (seq![line@] + lines_from(text@, end + 1)) =~= before.push(line@)
                + lines_from(text@, end + 1));
            assert(before + seq![line@] =~= before.push(line@));
        }
        if end == chars.len() {
            return out;
        }
        start = end + 1;
    }
    assert(out.deep_view() + Seq::<Seq<char>>::empty() =~= out.deep_view());
    out
}

/// The first word of `text`, if it has one.
pub fn find_first_word(text: &str) -> (word: Option<String>)
    ensures
        word.deep_view() == first_word(text@),
{
    let chars = chars_of(text);
    let mut start: usize = 0;
    while start < chars.len() && char_is_space(chars[start])
        invariant
            chars@ == text@,
            start <= chars.len(),
            skip_spaces(text@, 0) == skip_spaces(text@, start as int),
        decreases chars.len() - start,
    {
        start += 1;
    }
    if start == chars.len() {
        return None;
    }
    let mut end: usize = start;
    while end < chars.len() && !char_is_space(chars[end])
        invariant
            chars@ == text@,
            start <= end <= chars.len(),
            skip_word(text@, start as int) == skip_word(text@, end as int),
        decreases chars.len() - end,
    {
        end += 1;
    }
    Some(String::from_str(text.substring_char(start, end)))
}

/// What follows `prefix` in `text`, if `text` begins with it.
pub fn strip_prefix(text: &str, prefix: &str) -> (rest: Option<String>)
    ensures
        rest.deep_view() == after_prefix(text@, prefix@),
{
    let t = chars_of(text);
    let p = chars_of(prefix);
    if matches_at(&t, &p, 0) {
        Some(String::from_str(text.substring_char(p.len(), t.len())))
    } else {
        None
    }
}

/// What follows the first `c` in `text`, if `text` holds one.
pub fn strip_through(text: &str, c: char) -> (rest: Option<String>)
    ensures
        rest.deep_view() == after_char(text@, c),
{
    let chars = chars_of(text);
    let mut at: usize = 0;
    while at < chars.len() && chars[at] != c
        invariant
            chars@ == text@,
            at <= chars.len(),
            position_of(text@, c, 0) == position_of(text@, c, at as int),
        decreases chars.len() - at,
    {
        at += 1;
    }
    if at < chars.len() {
        Some(String::from_str(text.substring_char(at + 1, chars.len())))
    } else {
        None
    }
}

/// The decimal numeral of `n`.
pub fn decimal_text(n: u64) -> (text: String)
    ensures
        text@ == decimal(n as nat),
    decreases n,
{
    let digits = "0123456789";
    proof {
        reveal_strlit("0123456789");
    }
    let d: usize = (n % 10) as usize;
    let last = digits.substring_char(d, d + 1);
    assert(last@ =~= seq!["0123456789"@[d as int]]);
    if n < 10 {
        String::from_str(last)
    } else {
        let text = decimal_text(n / 10).concat(last);
        assert(text@ =~= decimal((n / 10) as nat).push("0123456789"@[d as int]));
        text
    }
}

/// Whether `list` holds a string equal to `item`.
pub fn contains_text(list: &Vec<String>, item: &str) -> (found: bool)
    ensures
        found == list.deep_view().contains(item@),
{
    let wanted = String::from_str(item);
    let mut i: usize = 0;
    while i < list.len()
        invariant
            i <= list.len(),
            wanted@ == item@,
            forall|k: int| 0 <= k < i ==> list.deep_view()[k] != item@,
        decreases list.len() - i,
    {
        if list[i] == wanted {
            assert(list.deep_view()[i as int] == item@);
            return true;
        }
        i += 1;
    }
    false
}

/// A copy of `list`, string by string.
pub fn clone_texts(list: &Vec<String>) -> (copy: Vec<String>)
    ensures
        copy.deep_view() == list.deep_view(),
{
    let mut copy: Vec<String> = Vec::new();
    let mut i: usize = 0;
    while i < list.len()
        invariant
            i <= list.len(),
            copy.len() == i,
            forall|k: int| 0 <= k < i ==> copy[k]@ == list[k]@,
        decreases list.len() - i,
    {
        copy.push(list[i].clone());
        i += 1;
    }
    assert(copy.deep_view() =~= list.deep_view());
    copy
}

} // verus!
