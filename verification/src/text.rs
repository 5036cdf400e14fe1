//! Texts as sequences of characters: finding a literal, trimming white
//! space, testing a prefix, and splitting into lines.

use vstd::prelude::*;

verus! {

/// `needle` stands in `hay` at index `i`.
pub open spec fn occurs_at(hay: Seq<char>, needle: Seq<char>, i: int) -> bool {
    &&& 0 <= i
    &&& i + needle.len() <= hay.len()
    &&& hay.subrange(i, i + needle.len()) == needle
}

/// The least index at or after `from` at which `needle` stands in `hay`.
pub open spec fn find_from(hay: Seq<char>, needle: Seq<char>, from: int) -> Option<int>
    decreases hay.len() - from + 1,
{
    if from < 0 || from + needle.len() > hay.len() {
        None
    } else if occurs_at(hay, needle, from) {
        Some(from)
    } else {
        find_from(hay, needle, from + 1)
    }
}

/// `needle` stands somewhere in `hay`.
pub open spec fn contains(hay: Seq<char>, needle: Seq<char>) -> bool {
    exists|i: int| occurs_at(hay, needle, i)
}

/// `find_from` gives the first occurrence at or after `from`, and `None`
/// exactly when there is none.
pub proof fn lemma_find_from(hay: Seq<char>, needle: Seq<char>, from: int)
    requires
        0 <= from,
    ensures
        match find_from(hay, needle, from) {
            Some(i) => {
                &&& from <= i
                &&& occurs_at(hay, needle, i)
                &&& forall|j: int| from <= j < i ==> !occurs_at(hay, needle, j)
            },
            None => forall|j: int| from <= j ==> !occurs_at(hay, needle, j),
        },
    decreases hay.len() - from + 1,
{
    if from + needle.len() > hay.len() {
    } else if occurs_at(hay, needle, from) {
    } else {
        lemma_find_from(hay, needle, from + 1);
    }
}

/// An occurrence at `i` with nothing before it from `from` on is what
/// `find_from` returns.
pub proof fn lemma_find_from_is(hay: Seq<char>, needle: Seq<char>, from: int, i: int)
    requires
        0 <= from <= i,
        occurs_at(hay, needle, i),
        forall|j: int| from <= j < i ==> !occurs_at(hay, needle, j),
    ensures
        find_from(hay, needle, from) == Some(i),
{
    lemma_find_from(hay, needle, from);
}

/// The characters of `s`, in order.
pub fn chars_of(s: &str) -> (v: Vec<char>)
    ensures
        v@ == s@,
{
    let mut v: Vec<char> = Vec::new();
    for c in it: s.chars()
        invariant
            v@ == s@.take(it.index() as int),
            it.seq() == s@,
    {
        v.push(c);
    }
    v
}

/// Whether `needle` stands in `hay` at index `i`.
pub fn matches_at(hay: &Vec<char>, needle: &Vec<char>, i: usize) -> (b: bool)
    ensures
        b == occurs_at(hay@, needle@, i as int),
{
    let n: usize = needle.len();
    if n > hay.len() || i > hay.len() - n {
        return false;
    }
    let mut k: usize = 0;
    while k < n
        invariant
            n == needle.len(),
            i + n <= hay.len(),
            k <= n,
            forall|j: int| 0 <= j < k ==> hay@[i + j] == needle@[j],
        decreases n - k,
    {
        if hay[i + k] != needle[k] {
            return false;
        }
        k += 1;
    }
    assert(hay@.subrange(i as int, i + n) =~= needle@);
    true
}

/// The first index at or after `from` at which `needle` stands in `hay`.
pub fn find(hay: &Vec<char>, needle: &Vec<char>, from: usize) -> (r: Option<usize>)
    ensures
        match r {
            Some(i) => find_from(hay@, needle@, from as int) == Some(i as int),
            None => find_from(hay@, needle@, from as int) is None,
        },
{
    let n: usize = needle.len();
    if n > hay.len() {
        return None;
    }
    let last: usize = hay.len() - n;
    let mut i: usize = from;
    while i <= last
        invariant
            n == needle.len(),
            last == hay.len() - n,
            from <= i,
            find_from(hay@, needle@, from as int) == find_from(hay@, needle@, i as int),
        decreases last + 1 - i,
    {
        if matches_at(hay, needle, i) {
            return Some(i);
        }
        if i == last {
            assert(find_from(hay@, needle@, i + 1) is None);
            return None;
        }
        i += 1;
    }
    None
}

/// Unicode white space: the characters with the property `White_Space`.
pub open spec fn is_space(c: char) -> bool {
    let n = c as u32;
    ||| 0x09 <= n <= 0x0d
    ||| n == 0x20
    ||| n == 0x85
    ||| n == 0xa0
    ||| n == 0x1680
    ||| 0x2000 <= n <= 0x200a
    ||| n == 0x2028
    ||| n == 0x2029
    ||| n == 0x202f
    ||| n == 0x205f
    ||| n == 0x3000
}

/// Whether `c` is Unicode white space.
pub fn is_whitespace(c: char) -> (b: bool)
    ensures
        b == is_space(c),
{
    let n: u32 = c as u32;
    (0x09 <= n && n <= 0x0d) || n == 0x20 || n == 0x85 || n == 0xa0 || n == 0x1680 || (0x2000 <= n
        && n <= 0x200a) || n == 0x2028 || n == 0x2029 || n == 0x202f || n == 0x205f || n == 0x3000
}

/// The first index from `i` on that holds no white space, or the length.
pub open spec fn skip_spaces(s: Seq<char>, i: int) -> int
    decreases s.len() - i,
{
    if 0 <= i < s.len() && is_space(s[i]) {
        skip_spaces(s, i + 1)
    } else {
        i
    }
}

/// The end of `s[lo..j]` once the white space at its end is left off.
pub open spec fn drop_spaces(s: Seq<char>, lo: int, j: int) -> int
    decreases j,
{
    if 0 <= lo < j <= s.len() && is_space(s[j - 1]) {
        drop_spaces(s, lo, j - 1)
    } else {
        j
    }
}

/// `s[lo..hi]` without the white space at either end, as a pair of indices
/// into `s`.
pub open spec fn trim_bounds(s: Seq<char>, lo: int, hi: int) -> (int, int) {
    let a = skip_spaces(s.take(hi), lo);
    (a, drop_spaces(s, a, hi))
}

/// `s` without the white space at either end.
pub open spec fn trim(s: Seq<char>) -> Seq<char> {
    let (a, b) = trim_bounds(s, 0, s.len() as int);
    s.subrange(a, b)
}

/// `skip_spaces` stops within the text, passes over white space only, and
/// stops at the first character that is none.
pub proof fn lemma_skip_spaces(s: Seq<char>, i: int)
    requires
        0 <= i <= s.len(),
    ensures
        i <= skip_spaces(s, i) <= s.len(),
        forall|k: int| i <= k < skip_spaces(s, i) ==> is_space(s[k]),
        skip_spaces(s, i) < s.len() ==> !is_space(s[skip_spaces(s, i)]),
    decreases s.len() - i,
{
    if i < s.len() && is_space(s[i]) {
        lemma_skip_spaces(s, i + 1);
    }
}

/// `drop_spaces` stops between `lo` and `j`, passes over white space only,
/// and stops behind the last character that is none.
pub proof fn lemma_drop_spaces(s: Seq<char>, lo: int, j: int)
    requires
        0 <= lo <= j <= s.len(),
    ensures
        lo <= drop_spaces(s, lo, j) <= j,
        forall|k: int| drop_spaces(s, lo, j) <= k < j ==> is_space(s[k]),
        lo < drop_spaces(s, lo, j) ==> !is_space(s[drop_spaces(s, lo, j) - 1]),
    decreases j,
{
    if lo < j && is_space(s[j - 1]) {
        lemma_drop_spaces(s, lo, j - 1);
    }
}

/// The bounds of `s[lo..hi]` without the white space at either end.
pub fn trimmed(s: &Vec<char>, lo: usize, hi: usize) -> (r: (usize, usize))
    requires
        lo <= hi <= s.len(),
    ensures
        (r.0 as int, r.1 as int) == trim_bounds(s@, lo as int, hi as int),
        lo <= r.0 <= r.1 <= hi,
{
    let ghost head = s@.take(hi as int);
    let mut a: usize = lo;
    while a < hi && is_whitespace(s[a])
        invariant
            lo <= a <= hi <= s.len(),
            head == s@.take(hi as int),
            skip_spaces(head, lo as int) == skip_spaces(head, a as int),
        decreases hi - a,
    {
        a += 1;
    }
    let mut b: usize = hi;
    while b > a && is_whitespace(s[b - 1])
        invariant
            a <= b <= hi <= s.len(),
            drop_spaces(s@, a as int, hi as int) == drop_spaces(s@, a as int, b as int),
        decreases b,
    {
        b -= 1;
    }
    (a, b)
}

/// Skipping white space in a slice of `s` is skipping it in `s`.
pub proof fn lemma_skip_spaces_shift(s: Seq<char>, lo: int, hi: int, i: int)
    requires
        0 <= lo <= hi <= s.len(),
        0 <= i <= hi - lo,
    ensures
        skip_spaces(s.take(hi), lo + i) == lo + skip_spaces(s.subrange(lo, hi), i),
    decreases hi - lo - i,
{
    let part = s.subrange(lo, hi);
    if i < hi - lo {
        if is_space(part[i]) {
            lemma_skip_spaces_shift(s, lo, hi, i + 1);
        }
    }
}

/// Dropping white space at the end of a slice of `s` is dropping it in `s`.
pub proof fn lemma_drop_spaces_shift(s: Seq<char>, lo: int, hi: int, a: int, j: int)
    requires
        0 <= lo <= hi <= s.len(),
        0 <= a <= j <= hi - lo,
    ensures
        drop_spaces(s, lo + a, lo + j) == lo + drop_spaces(s.subrange(lo, hi), a, j),
    decreases j,
{
    let part = s.subrange(lo, hi);
    if a < j {
        if is_space(part[j - 1]) {
            lemma_drop_spaces_shift(s, lo, hi, a, j - 1);
        }
    }
}

/// Trimming a slice of `s` in place gives the slice, trimmed.
pub proof fn lemma_trim_bounds_shift(s: Seq<char>, lo: int, hi: int, part: Seq<char>)
    requires
        0 <= lo <= hi <= s.len(),
        part == s.subrange(lo, hi),
    ensures
        ({
            let (a, b) = trim_bounds(s, lo, hi);
            s.subrange(a, b) == trim(part)
        }),
{
    let (a, b) = trim_bounds(s, lo, hi);
    assert(part.take(part.len() as int) =~= part);
    lemma_skip_spaces_shift(s, lo, hi, 0);
    lemma_skip_spaces(part, 0);
    let pa = skip_spaces(part, 0);
    lemma_drop_spaces_shift(s, lo, hi, pa, hi - lo);
    lemma_drop_spaces(part, pa, part.len() as int);
    let pb = drop_spaces(part, pa, part.len() as int);
    assert(s.subrange(a, b) =~= part.subrange(pa, pb));
}

/// Whether `s` holds nothing but white space.
pub open spec fn is_blank(s: Seq<char>) -> bool {
    trim(s).len() == 0
}

/// Whether `s` holds nothing but white space.
pub fn blank(s: &Vec<char>) -> (b: bool)
    ensures
        b == is_blank(s@),
{
    let (a, b) = trimmed(s, 0, s.len());
    a == b
}

/// What is in `a` is in `a + b`.
pub proof fn lemma_contains_in_longer(a: Seq<char>, b: Seq<char>, needle: Seq<char>)
    requires
        contains(a, needle),
    ensures
        contains(a + b, needle),
{
    let i = choose|i: int| occurs_at(a, needle, i);
    assert((a + b).subrange(i, i + needle.len()) =~= a.subrange(i, i + needle.len()));
    assert(occurs_at(a + b, needle, i));
}

/// `s` begins with `prefix`.
pub open spec fn has_prefix(s: Seq<char>, prefix: Seq<char>) -> bool {
    prefix.len() <= s.len() && s.take(prefix.len() as int) == prefix
}

/// Whether `s` begins with `prefix`.
pub fn starts_with(s: &Vec<char>, prefix: &Vec<char>) -> (b: bool)
    ensures
        b == has_prefix(s@, prefix@),
{
    let b = matches_at(s, prefix, 0);
    b
}

/// Whether two strings hold the same text.
pub fn same_text(a: &str, b: &str) -> (r: bool)
    ensures
        r == (a@ == b@),
{
    let x = chars_of(a);
    let y = chars_of(b);
    if x.len() != y.len() {
        return false;
    }
    let r = matches_at(&x, &y, 0);
    assert(x@.subrange(0, 0 + y@.len() as int) =~= x@);
    r
}

/// The views of a list of strings.
pub open spec fn lines_view(lines: Seq<String>) -> Seq<Seq<char>> {
    Seq::new(lines.len(), |i: int| lines[i]@)
}

/// The line feed, as a text of one character.
pub open spec fn line_feed() -> Seq<char> {
    seq!['\n']
}

/// A line without the carriage return at its end, if it has one.
pub open spec fn without_cr(line: Seq<char>) -> Seq<char> {
    if line.len() > 0 && line.last() == '\r' {
        line.drop_last()
    } else {
        line
    }
}

/// The lines of `text` from index `from` on. A line ends at a line feed, or
/// at a carriage return that a line feed follows; the end of the line is not
/// part of it. What stands after the last line feed is a line if it is not
/// empty.
pub open spec fn lines_from(text: Seq<char>, from: int) -> Seq<Seq<char>>
    decreases text.len() - from,
{
    if from < 0 || from >= text.len() {
        Seq::empty()
    } else {
        match find_from(text, line_feed(), from) {
            None => seq![text.subrange(from, text.len() as int)],
            Some(end) => {
                if from <= end < text.len() {
                    seq![without_cr(text.subrange(from, end))] + lines_from(text, end + 1)
                } else {
                    Seq::empty()
                }
            },
        }
    }
}

/// The lines of `text`.
pub open spec fn lines_of(text: Seq<char>) -> Seq<Seq<char>> {
    lines_from(text, 0)
}

/// Splits a text into its lines.
pub fn split_lines(text: &str) -> (lines: Vec<String>)
    ensures
        lines_view(lines@) == lines_of(text@),
{
    let chars = chars_of(text);
    let n: usize = chars.len();
    let feed: Vec<char> = vec!['\n'];
    let mut lines: Vec<String> = Vec::new();
    let mut from: usize = 0;
    while from < n
        invariant
            from <= n,
            n == chars.len(),
            chars@ == text@,
            feed@ == line_feed(),
            lines_of(text@) == lines_view(lines@) + lines_from(text@, from as int),
        decreases n - from,
    {
        proof {
            lemma_find_from(text@, line_feed(), from as int);
        }
        match find(&chars, &feed, from) {
            None => {
                let line = text.substring_char(from, n);
                lines.push(line.to_owned());
                from = n;
            },
            Some(end) => {
                let stop: usize = if end > from && chars[end - 1] == '\r' {
                    end - 1
                } else {
                    end
                };
                let line = text.substring_char(from, stop);
                assert(line@ =~= without_cr(text@.subrange(from as int, end as int)));
                lines.push(line.to_owned());
                from = end + 1;
            },
        }
    }
    lines
}

/// The length of the part of `text` that is made of whole lines: the part
/// up to the last line feed, the line feed included.
pub open spec fn complete_len(text: Seq<char>) -> int
    decreases text.len(),
{
    if text.len() == 0 {
        0
    } else if text.last() == '\n' {
        text.len() as int
    } else {
        complete_len(text.drop_last())
    }
}

/// The part of whole lines lies within the text and ends with a line feed,
/// unless it is empty.
pub proof fn lemma_complete_len(text: Seq<char>)
    ensures
        0 <= complete_len(text) <= text.len(),
        complete_len(text) > 0 ==> text[complete_len(text) - 1] == '\n',
    decreases text.len(),
{
    if text.len() > 0 && text.last() != '\n' {
        lemma_complete_len(text.drop_last());
    }
}

/// The length of the part of `text` that is made of whole lines.
pub fn complete_length(text: &Vec<char>) -> (n: usize)
    ensures
        n as int == complete_len(text@),
        n <= text.len(),
{
    let mut n: usize = text.len();
    assert(text@.take(n as int) =~= text@);
    while n > 0 && text[n - 1] != '\n'
        invariant
            n <= text.len(),
            complete_len(text@) == complete_len(text@.take(n as int)),
        decreases n,
    {
        assert(text@.take(n as int).drop_last() =~= text@.take(n - 1));
        n -= 1;
    }
    proof {
        if n > 0 {
            assert(text@.take(n as int).last() == '\n');
        }
    }
    n
}

/// A line feed stands at an index exactly where the character there is one.
pub proof fn lemma_line_feed_at(text: Seq<char>, i: int)
    ensures
        occurs_at(text, line_feed(), i) <==> (0 <= i < text.len() && text[i] == '\n'),
{
    if 0 <= i < text.len() {
        assert(text.subrange(i, i + 1)[0] == text[i]);
        if text[i] == '\n' {
            assert(text.subrange(i, i + 1) =~= line_feed());
        }
    }
}

/// The lines of what follows a text, found in the whole, are its lines.
pub proof fn lemma_lines_after(a: Seq<char>, b: Seq<char>, k: int)
    requires
        0 <= k <= b.len(),
    ensures
        lines_from(a + b, a.len() + k) == lines_from(b, k),
    decreases b.len() - k,
{
    let whole = a + b;
    let at = a.len() + k;
    if k < b.len() {
        lemma_find_from(b, line_feed(), k);
        assert forall|j: int| at <= j implies (occurs_at(whole, line_feed(), j) <==> occurs_at(
            b,
            line_feed(),
            j - a.len(),
        )) by {
            lemma_line_feed_at(whole, j);
            lemma_line_feed_at(b, j - a.len());
        }
        match find_from(b, line_feed(), k) {
            None => {
                lemma_find_from(whole, line_feed(), at);
                assert(find_from(whole, line_feed(), at) is None);
                assert(whole.subrange(at, whole.len() as int) =~= b.subrange(k, b.len() as int));
            },
            Some(end) => {
                lemma_line_feed_at(b, end);
                assert forall|j: int| at <= j < a.len() + end implies !occurs_at(
                    whole,
                    line_feed(),
                    j,
                ) by {
                    assert(!occurs_at(b, line_feed(), j - a.len()));
                }
                lemma_find_from_is(whole, line_feed(), at, a.len() + end);
                assert(whole.subrange(at, a.len() + end) =~= b.subrange(k, end));
                lemma_lines_after(a, b, end + 1);
            },
        }
    }
}

/// The lines of a text that ends with a line feed, found in a longer text,
/// are its lines, and the lines of the rest follow them.
pub proof fn lemma_lines_before(a: Seq<char>, b: Seq<char>, from: int)
    requires
        a.len() > 0,
        a.last() == '\n',
        0 <= from <= a.len(),
    ensures
        lines_from(a + b, from) == lines_from(a, from) + lines_of(b),
    decreases a.len() - from,
{
    let whole = a + b;
    if from == a.len() {
        lemma_lines_after(a, b, 0);
        assert(lines_from(a, from) + lines_of(b) =~= lines_of(b));
    } else {
        lemma_find_from(a, line_feed(), from);
        lemma_line_feed_at(a, a.len() - 1);
        assert forall|j: int| 0 <= j < a.len() implies (occurs_at(whole, line_feed(), j)
            <==> occurs_at(a, line_feed(), j)) by {
            lemma_line_feed_at(whole, j);
            lemma_line_feed_at(a, j);
        }
        let end = find_from(a, line_feed(), from).unwrap();
        lemma_line_feed_at(a, end);
        lemma_find_from_is(whole, line_feed(), from, end);
        assert(whole.subrange(from, end) =~= a.subrange(from, end));
        lemma_lines_before(a, b, end + 1);
        assert(seq![without_cr(a.subrange(from, end))] + (lines_from(a, end + 1) + lines_of(b))
            =~= (seq![without_cr(a.subrange(from, end))] + lines_from(a, end + 1)) + lines_of(
            b,
        ));
    }
}

/// The lines of two texts put together are the lines of the first and then
/// the lines of the second, where the first is made of whole lines.
pub proof fn lemma_lines_of_concat(a: Seq<char>, b: Seq<char>)
    requires
        a.len() == 0 || a.last() == '\n',
    ensures
        lines_of(a + b) == lines_of(a) + lines_of(b),
{
    if a.len() == 0 {
        assert(a + b =~= b);
        assert(lines_of(a) + lines_of(b) =~= lines_of(b));
    } else {
        lemma_lines_before(a, b, 0);
    }
}

/// The view of a text that may be missing.
pub open spec fn text_view(text: Option<String>) -> Option<Seq<char>> {
    match text {
        Some(t) => Some(t@),
        None => None,
    }
}

/// A text that may be missing, or else the empty text.
pub open spec fn or_empty(text: Option<Seq<char>>) -> Seq<char> {
    match text {
        Some(t) => t,
        None => Seq::empty(),
    }
}

/// A copy of a text that may be missing.
pub fn copy_text(text: &Option<String>) -> (copy: Option<String>)
    ensures
        text_view(copy) == text_view(*text),
{
    match text {
        Some(t) => Some(t.clone()),
        None => None,
    }
}


} // verus!
