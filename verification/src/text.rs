//! Text primitives shared by the parsers of command output.
//!
//! Every function here is stated over `Seq<char>`, the view of a `str`; the
//! executable versions work on a slice of characters so that indexing is
//! constant time, and hand out ranges in place of copies.

use vstd::prelude::*;

verus! {

/// White space as Unicode defines it (`White_Space`).
pub open spec fn is_space(c: char) -> bool {
    let n = c as u32;
    ||| 0x09 <= n <= 0x0D
    ||| n == 0x20
    ||| n == 0x85
    ||| n == 0xA0
    ||| n == 0x1680
    ||| 0x2000 <= n <= 0x200A
    ||| n == 0x2028
    ||| n == 0x2029
    ||| n == 0x202F
    ||| n == 0x205F
    ||| n == 0x3000
}

/// Whether `c` is white space.
pub fn is_whitespace(c: char) -> (r: bool)
    ensures
        r == is_space(c),
{
    let n: u32 = c as u32;
    (0x09 <= n && n <= 0x0D) || n == 0x20 || n == 0x85 || n == 0xA0 || n == 0x1680 || (0x2000 <= n
        && n <= 0x200A) || n == 0x2028 || n == 0x2029 || n == 0x202F || n == 0x205F || n == 0x3000
}

/// The characters of a string, in order.
pub fn chars_of(s: &str) -> (v: Vec<char>)
    ensures
        v@ == s@,
{
    let mut v: Vec<char> = Vec::new();
    for c in it: s.chars()
        invariant
            v@ == it.seq().take(it.index() as int),
            it.seq() == s@,
    {
        v.push(c);
    }
    v
}

/// The texts that a list of strings holds, in order.
pub open spec fn texts(v: Seq<String>) -> Seq<Seq<char>> {
    Seq::new(v.len(), |i: int| v[i]@)
}

/// The text of a string that may be missing.
pub open spec fn text_of(s: Option<String>) -> Option<Seq<char>> {
    match s {
        Some(s) => Some(s@),
        None => None,
    }
}

/// A range of indices into a text: from `start` up to, and without, `end`.
#[derive(Clone, Copy, Debug, PartialEq, Eq)]
pub struct Span {
    pub start: usize,
    pub end: usize,
}

impl Span {
    /// The range lies inside `s`.
    pub open spec fn within(self, s: Seq<char>) -> bool {
        self.start <= self.end <= s.len()
    }

    /// The characters of `s` that the range covers.
    pub open spec fn of(self, s: Seq<char>) -> Seq<char> {
        s.subrange(self.start as int, self.end as int)
    }
}

/// Every range lies inside `s`.
pub open spec fn spans_within(s: Seq<char>, spans: Seq<Span>) -> bool {
    forall|i: int| 0 <= i < spans.len() ==> (#[trigger] spans[i]).within(s)
}

/// The pieces of `s` that the ranges cover, in order.
pub open spec fn span_texts(s: Seq<char>, spans: Seq<Span>) -> Seq<Seq<char>> {
    Seq::new(spans.len(), |i: int| spans[i].of(s))
}

/// The part of `text` from index `start` up to, and without, `end`, as a
/// string of its own.
pub(crate) fn substring(text: &str, start: usize, end: usize) -> (r: String)
    requires
        start <= end <= text@.len(),
    ensures
        r@ == text@.subrange(start as int, end as int),
{
    text.substring_char(start, end).to_owned()
}

/// Number of characters from `from` up to, and without, the next `c`; up to
/// the end where there is none.
pub open spec fn run_until(s: Seq<char>, c: char, from: int) -> nat
    decreases s.len() - from,
{
    if from < 0 || from >= s.len() || s[from] == c {
        0
    } else {
        1 + run_until(s, c, from + 1)
    }
}

/// Index of the first `c` at or after `from`, or `s.len()`.
pub open spec fn index_of(s: Seq<char>, c: char, from: int) -> int {
    from + run_until(s, c, from)
}

/// Index of the first `c` at or after `from`; the length of `s` where there
/// is none, and `from` itself where it lies behind the end.
pub fn find_char(s: &[char], c: char, from: usize) -> (r: usize)
    ensures
        r == index_of(s@, c, from as int),
        from <= r,
        from <= s@.len() ==> r <= s@.len(),
{
    let mut i: usize = from;
    while i < s.len() && s[i] != c
        invariant
            from <= i,
            from < s.len() ==> i <= s.len(),
            index_of(s@, c, from as int) == index_of(s@, c, i as int),
        decreases s.len() - i,
    {
        i += 1;
    }
    i
}

/// The line that starts at `from`: the text up to the next line feed, without
/// a carriage return that stands directly before that line feed.
pub open spec fn line_at(s: Seq<char>, from: int) -> Seq<char> {
    let end = index_of(s, '\n', from);
    if from < end < s.len() && s[end - 1] == '\r' {
        s.subrange(from, end - 1)
    } else {
        s.subrange(from, end)
    }
}

/// The lines of `s` from index `from` on.
pub open spec fn lines_from(s: Seq<char>, from: int) -> Seq<Seq<char>>
    decreases s.len() - from,
{
    if from < 0 || from >= s.len() {
        Seq::empty()
    } else {
        let end = from + run_until(s, '\n', from);
        if end < s.len() {
            seq![line_at(s, from)] + lines_from(s, end + 1)
        } else {
            seq![line_at(s, from)]
        }
    }
}

/// The lines of a text. A line ends at a line feed or at the end of the text;
/// the line feed, and a carriage return directly before it, are not part of
/// the line. Text that ends in a line feed has no empty last line.
pub open spec fn lines(s: Seq<char>) -> Seq<Seq<char>> {
    lines_from(s, 0)
}

/// Where the line that starts at `from` ends, and where the next line starts.
fn next_line(s: &[char], from: usize) -> (r: (usize, usize))
    requires
        from < s@.len(),
    ensures
        from <= r.0 <= s@.len(),
        from < r.1 <= s@.len(),
        s@.subrange(from as int, r.0 as int) == line_at(s@, from as int),
        lines_from(s@, from as int) == seq![line_at(s@, from as int)] + lines_from(s@, r.1 as int),
{
    let end = find_char(s, '\n', from);
    let stop = if from < end && end < s.len() && s[end - 1] == '\r' {
        end - 1
    } else {
        end
    };
    let next = if end < s.len() {
        end + 1
    } else {
        end
    };
    (stop, next)
}

/// The lines of `s`, as ranges.
pub fn line_spans(s: &[char]) -> (out: Vec<Span>)
    ensures
        spans_within(s@, out@),
        span_texts(s@, out@) == lines(s@),
{
    let mut out: Vec<Span> = Vec::new();
    let mut pos: usize = 0;
    assert(span_texts(s@, out@) + lines_from(s@, 0) =~= lines(s@));
    while pos < s.len()
        invariant
            pos <= s.len(),
            spans_within(s@, out@),
            span_texts(s@, out@) + lines_from(s@, pos as int) == lines(s@),
        decreases s.len() - pos,
    {
        let (stop, next) = next_line(s, pos);
        let ghost before = out@;
        out.push(Span { start: pos, end: stop });
        proof {
            let line = line_at(s@, pos as int);
            assert(span_texts(s@, out@) =~= span_texts(s@, before) + seq![line]);
            assert(span_texts(s@, out@) + lines_from(s@, next as int) =~= span_texts(s@, before)
                + lines_from(s@, pos as int));
        }
        pos = next;
    }
    assert(span_texts(s@, out@) + lines_from(s@, pos as int) =~= span_texts(s@, out@));
    out
}

/// Number of characters from `from` up to the next white space or the end.
pub open spec fn word_len(s: Seq<char>, from: int) -> nat
    decreases s.len() - from,
{
    if from < 0 || from >= s.len() || is_space(s[from]) {
        0
    } else {
        1 + word_len(s, from + 1)
    }
}

/// The words of `s` from index `from` on.
pub open spec fn words_from(s: Seq<char>, from: int) -> Seq<Seq<char>>
    decreases s.len() - from,
{
    if from < 0 || from >= s.len() {
        Seq::empty()
    } else if is_space(s[from]) {
        words_from(s, from + 1)
    } else {
        let end = from + word_len(s, from);
        if end < s.len() {
            seq![s.subrange(from, end)] + words_from(s, end)
        } else {
            seq![s.subrange(from, end)]
        }
    }
}

/// The words of a text: its longest runs of characters that are not white
/// space, in order. No word is empty.
pub open spec fn words(s: Seq<char>) -> Seq<Seq<char>> {
    words_from(s, 0)
}

/// The words of `s`, as ranges.
pub fn word_spans(s: &[char]) -> (out: Vec<Span>)
    ensures
        spans_within(s@, out@),
        span_texts(s@, out@) == words(s@),
{
    let mut out: Vec<Span> = Vec::new();
    let mut pos: usize = 0;
    assert(span_texts(s@, out@) + words_from(s@, 0) =~= words(s@));
    while pos < s.len()
        invariant
            pos <= s@.len(),
            spans_within(s@, out@),
            span_texts(s@, out@) + words_from(s@, pos as int) == words(s@),
        decreases s@.len() - pos,
    {
        if is_whitespace(s[pos]) {
            pos += 1;
        } else {
            let start: usize = pos;
            let mut end: usize = pos + 1;
            while end < s.len() && !is_whitespace(s[end])
                invariant
                    start < end <= s@.len(),
                    start + word_len(s@, start as int) == end + word_len(s@, end as int),
                decreases s@.len() - end,
            {
                end += 1;
            }
            let ghost before = out@;
            out.push(Span { start, end });
            proof {
                let word = s@.subrange(start as int, end as int);
                assert(span_texts(s@, out@) =~= span_texts(s@, before) + seq![word]);
                assert(words_from(s@, start as int) =~= seq![word] + words_from(s@, end as int));
                assert(span_texts(s@, out@) + words_from(s@, end as int) =~= span_texts(
                    s@,
                    before,
                ) + words_from(s@, start as int));
            }
            pos = end;
        }
    }
    assert(span_texts(s@, out@) + words_from(s@, pos as int) =~= span_texts(s@, out@));
    out
}

/// `pat` stands in `s` at index `i`.
pub open spec fn matches_at(s: Seq<char>, pat: Seq<char>, i: int) -> bool {
    0 <= i && i + pat.len() <= s.len() && s.subrange(i, i + pat.len()) == pat
}

/// `pat` stands somewhere in `s`.
pub open spec fn contains(s: Seq<char>, pat: Seq<char>) -> bool {
    exists|i: int| matches_at(s, pat, i)
}

/// `s` begins with `pat`.
pub open spec fn starts_with(s: Seq<char>, pat: Seq<char>) -> bool {
    matches_at(s, pat, 0)
}

/// The last index up to `upto` at which `pat` stands in `s`, or -1.
pub open spec fn last_match(s: Seq<char>, pat: Seq<char>, upto: int) -> int
    decreases upto + 1,
{
    if upto < 0 {
        -1
    } else if matches_at(s, pat, upto) {
        upto
    } else {
        last_match(s, pat, upto - 1)
    }
}

/// Whether `pat` stands in `s` at index `i`.
pub fn matches_here(s: &[char], pat: &[char], i: usize) -> (r: bool)
    ensures
        r == matches_at(s@, pat@, i as int),
{
    if pat.len() > s.len() || i > s.len() - pat.len() {
        return false;
    }
    let mut k: usize = 0;
    while k < pat.len()
        invariant
            k <= pat.len(),
            i + pat.len() <= s.len(),
            forall|j: int| 0 <= j < k ==> s@[i + j] == pat@[j],
        decreases pat.len() - k,
    {
        if s[i + k] != pat[k] {
            assert(s@.subrange(i as int, i + pat@.len())[k as int] != pat@[k as int]);
            return false;
        }
        k += 1;
    }
    assert(s@.subrange(i as int, i + pat@.len()) =~= pat@);
    true
}

/// Whether two texts hold the same characters.
pub fn same_text(a: &[char], b: &[char]) -> (r: bool)
    ensures
        r == (a@ == b@),
{
    if a.len() != b.len() {
        return false;
    }
    let r = matches_here(a, b, 0);
    assert(a@.subrange(0, a@.len() as int) =~= a@);
    r
}

/// Index of the first place at which `pat` stands in `s`.
pub fn find(s: &[char], pat: &[char]) -> (r: Option<usize>)
    ensures
        r is Some <==> contains(s@, pat@),
        r matches Some(i) ==> matches_at(s@, pat@, i as int) && forall|j: int|
            0 <= j < i ==> !matches_at(s@, pat@, j),
{
    if pat.len() > s.len() {
        return None;
    }
    let last: usize = s.len() - pat.len();
    let mut i: usize = 0;
    loop
        invariant
            i <= last,
            last + pat.len() == s.len(),
            forall|j: int| 0 <= j < i ==> !matches_at(s@, pat@, j),
        decreases last - i,
    {
        if matches_here(s, pat, i) {
            return Some(i);
        }
        if i == last {
            return None;
        }
        i += 1;
    }
}

/// `last_match` is the one place at which `pat` stands and after which, up to
/// `upto`, it stands nowhere; it is -1 where `pat` stands nowhere up to `upto`.
pub proof fn lemma_last_match(s: Seq<char>, pat: Seq<char>, upto: int, i: int)
    requires
        -1 <= i <= upto,
        i >= 0 ==> matches_at(s, pat, i),
        forall|j: int| i < j <= upto ==> !matches_at(s, pat, j),
    ensures
        last_match(s, pat, upto) == i,
    decreases upto - i,
{
    if i < upto {
        lemma_last_match(s, pat, upto - 1, i);
    }
}

/// Index of the last place at which `pat` stands in `s`.
pub fn find_last(s: &[char], pat: &[char]) -> (r: Option<usize>)
    ensures
        r is Some <==> contains(s@, pat@),
        r matches Some(i) ==> matches_at(s@, pat@, i as int) && i == last_match(
            s@,
            pat@,
            s@.len() as int,
        ),
{
    if pat.len() > s.len() {
        return None;
    }
    let mut i: usize = s.len() - pat.len();
    loop
        invariant
            i + pat.len() <= s.len(),
            forall|j: int| i < j ==> !matches_at(s@, pat@, j),
        decreases i,
    {
        if matches_here(s, pat, i) {
            proof {
                lemma_last_match(s@, pat@, s@.len() as int, i as int);
            }
            return Some(i);
        }
        if i == 0 {
            return None;
        }
        i -= 1;
    }
}

/// The pieces of `s` from index `from` on, cut at every `sep`.
pub open spec fn split_from(s: Seq<char>, sep: char, from: int) -> Seq<Seq<char>>
    decreases s.len() - from,
{
    if from < 0 || from > s.len() {
        Seq::empty()
    } else {
        let end = from + run_until(s, sep, from);
        if end < s.len() {
            seq![s.subrange(from, end)] + split_from(s, sep, end + 1)
        } else {
            seq![s.subrange(from, end)]
        }
    }
}

/// The pieces of `s` between its separators `sep`. There is always at least
/// one piece, and one more than there are separators; a piece may be empty.
pub open spec fn split(s: Seq<char>, sep: char) -> Seq<Seq<char>> {
    split_from(s, sep, 0)
}

/// The piece with index `n` among those that `sep` cuts `s` into.
pub fn field(s: &[char], sep: char, n: usize) -> (r: Option<Span>)
    ensures
        r is Some <==> n < split(s@, sep).len(),
        r matches Some(span) ==> span.within(s@) && span.of(s@) == split(s@, sep)[n as int],
{
    let mut pos: usize = 0;
    let mut k: usize = 0;
    assert(split(s@, sep).skip(0) =~= split_from(s@, sep, 0));
    loop
        invariant
            pos <= s@.len(),
            k <= n,
            k <= split(s@, sep).len(),
            split(s@, sep).skip(k as int) == split_from(s@, sep, pos as int),
        decreases s@.len() - pos,
    {
        let end = find_char(s, sep, pos);
        let ghost piece = s@.subrange(pos as int, end as int);
        assert(split_from(s@, sep, pos as int)[0] == piece);
        assert(split(s@, sep).skip(k as int)[0] == piece);
        assert(split(s@, sep).skip(k as int).len() >= 1);
        if k == n {
            return Some(Span { start: pos, end });
        }
        if end == s.len() {
            assert(split_from(s@, sep, pos as int).len() == 1);
            return None;
        }
        assert(split(s@, sep).skip(k as int + 1) =~= split(s@, sep).skip(k as int).skip(1));
        assert(split_from(s@, sep, pos as int).skip(1) =~= split_from(s@, sep, end as int + 1));
        pos = end + 1;
        k += 1;
    }
}

/// Number of white-space characters from `from` on, before the first other
/// character.
pub open spec fn leading_spaces(s: Seq<char>, from: int) -> nat
    decreases s.len() - from,
{
    if from < 0 || from >= s.len() || !is_space(s[from]) {
        0
    } else {
        1 + leading_spaces(s, from + 1)
    }
}

/// Number of white-space characters that end at index `to`, after the last
/// other character.
pub open spec fn trailing_spaces(s: Seq<char>, to: int) -> nat
    decreases to,
{
    if to <= 0 || to > s.len() || !is_space(s[to - 1]) {
        0
    } else {
        1 + trailing_spaces(s, to - 1)
    }
}

/// `s` without the white space at its two ends.
pub open spec fn trim(s: Seq<char>) -> Seq<char> {
    let start = leading_spaces(s, 0) as int;
    let end = s.len() - trailing_spaces(s, s.len() as int);
    if start < end {
        s.subrange(start, end)
    } else {
        Seq::empty()
    }
}

/// The range of `s` that is left when the white space at its two ends is
/// taken away.
pub fn trim_span(s: &[char]) -> (r: Span)
    ensures
        r.within(s@),
        r.of(s@) == trim(s@),
{
    let mut start: usize = 0;
    while start < s.len() && is_whitespace(s[start])
        invariant
            start <= s@.len(),
            leading_spaces(s@, 0) == start + leading_spaces(s@, start as int),
        decreases s@.len() - start,
    {
        start += 1;
    }
    let mut end: usize = s.len();
    while end > 0 && is_whitespace(s[end - 1])
        invariant
            end <= s@.len(),
            trailing_spaces(s@, s@.len() as int) == (s@.len() - end) + trailing_spaces(
                s@,
                end as int,
            ),
        decreases end,
    {
        end -= 1;
    }
    if start < end {
        Span { start, end }
    } else {
        assert(s@.subrange(start as int, start as int) =~= Seq::<char>::empty());
        Span { start, end: start }
    }
}

/// `c` is one of the ten decimal digits.
pub open spec fn is_digit(c: char) -> bool {
    0x30 <= c as u32 <= 0x39
}

/// The number that the digit `c` stands for.
pub open spec fn digit_value(c: char) -> nat {
    (c as u32 - 0x30) as nat
}

/// Every character of `s` is a decimal digit.
pub open spec fn all_digits(s: Seq<char>) -> bool {
    forall|i: int| 0 <= i < s.len() ==> is_digit(#[trigger] s[i])
}

/// The number that a run of decimal digits stands for; 0 for the empty run.
pub open spec fn digits_value(s: Seq<char>) -> nat
    decreases s.len(),
{
    if s.len() == 0 {
        0
    } else {
        digits_value(s.drop_last()) * 10 + digit_value(s.last())
    }
}

/// Whether every character of `s` is a decimal digit.
pub fn is_all_digits(s: &[char]) -> (r: bool)
    ensures
        r == all_digits(s@),
{
    let mut i: usize = 0;
    while i < s.len()
        invariant
            i <= s.len(),
            forall|j: int| 0 <= j < i ==> is_digit(#[trigger] s@[j]),
        decreases s.len() - i,
    {
        let n: u32 = s[i] as u32;
        if n < 0x30 || n > 0x39 {
            return false;
        }
        i += 1;
    }
    true
}

/// A run of digits never stands for less than one of its beginnings.
pub proof fn lemma_digits_value_grows(s: Seq<char>, k: int)
    requires
        0 <= k <= s.len(),
    ensures
        digits_value(s.take(k)) <= digits_value(s),
    decreases s.len() - k,
{
    if k < s.len() {
        lemma_digits_value_grows(s, k + 1);
        assert(s.take(k + 1).drop_last() =~= s.take(k));
    } else {
        assert(s.take(k) =~= s);
    }
}

/// The number that `s` stands for, where `s` is made of decimal digits and
/// the number fits in 64 bits.
pub fn parse_digits(s: &[char]) -> (r: Option<u64>)
    ensures
        r is Some <==> all_digits(s@) && digits_value(s@) <= u64::MAX,
        r matches Some(v) ==> v == digits_value(s@),
{
    let mut acc: u64 = 0;
    let mut i: usize = 0;
    assert(s@.take(0) =~= Seq::<char>::empty());
    while i < s.len()
        invariant
            i <= s.len(),
            all_digits(s@.take(i as int)),
            acc == digits_value(s@.take(i as int)),
        decreases s.len() - i,
    {
        let n: u32 = s[i] as u32;
        if n < 0x30 || n > 0x39 {
            return None;
        }
        let d: u64 = (n - 0x30) as u64;
        proof {
            assert(s@.take(i + 1).drop_last() =~= s@.take(i as int));
            assert(s@.take(i + 1).last() == s@[i as int]);
            lemma_digits_value_grows(s@, i + 1);
        }
        if acc > (u64::MAX - d) / 10 {
            return None;
        }
        acc = acc * 10 + d;
        i += 1;
    }
    assert(s@.take(i as int) =~= s@);
    Some(acc)
}

/// The character for a digit from 0 to 9.
pub open spec fn digit_char(d: nat) -> char {
    if d == 0 {
        '0'
    } else if d == 1 {
        '1'
    } else if d == 2 {
        '2'
    } else if d == 3 {
        '3'
    } else if d == 4 {
        '4'
    } else if d == 5 {
        '5'
    } else if d == 6 {
        '6'
    } else if d == 7 {
        '7'
    } else if d == 8 {
        '8'
    } else {
        '9'
    }
}

/// A number written in decimal digits, without leading zeros.
pub open spec fn decimal_text(n: nat) -> Seq<char>
    decreases n,
{
    if n < 10 {
        seq![digit_char(n)]
    } else {
        decimal_text(n / 10) + seq![digit_char(n % 10)]
    }
}

/// The text of one decimal digit.
fn digit_str(d: u8) -> (r: &'static str)
    requires
        d < 10,
    ensures
        r@ == seq![digit_char(d as nat)],
{
    proof {
        reveal_strlit("0");
        reveal_strlit("1");
        reveal_strlit("2");
        reveal_strlit("3");
        reveal_strlit("4");
        reveal_strlit("5");
        reveal_strlit("6");
        reveal_strlit("7");
        reveal_strlit("8");
        reveal_strlit("9");
    }
    let r = if d == 0 {
        "0"
    } else if d == 1 {
        "1"
    } else if d == 2 {
        "2"
    } else if d == 3 {
        "3"
    } else if d == 4 {
        "4"
    } else if d == 5 {
        "5"
    } else if d == 6 {
        "6"
    } else if d == 7 {
        "7"
    } else if d == 8 {
        "8"
    } else {
        "9"
    };
    assert(r@ =~= seq![digit_char(d as nat)]);
    r
}

/// Appends `n`, written in decimal digits, to `out`.
pub fn push_decimal(out: &mut String, n: u64)
    ensures
        final(out)@ == old(out)@ + decimal_text(n as nat),
    decreases n,
{
    if n >= 10 {
        push_decimal(out, n / 10);
    }
    out.append(digit_str((n % 10) as u8));
    assert(final(out)@ =~= old(out)@ + decimal_text(n as nat));
}

/// `n` written in decimal digits.
pub fn decimal_string(n: u64) -> (r: String)
    ensures
        r@ == decimal_text(n as nat),
{
    let mut out = String::new();
    push_decimal(&mut out, n);
    assert(out@ =~= decimal_text(n as nat));
    out
}

} // verus!
