//! Character-level text helpers shared by the rest of the crate.
//!
//! Every helper here works on the `Seq<char>` view of Rust strings, so the
//! contracts elsewhere can speak of words, prefixes and substrings directly.
use vstd::prelude::*;
use vstd::std_specs::iter::IteratorSpec;

verus! {

broadcast use vstd::string::group_string_axioms;

// ---------------------------------------------------------------------------
// Building strings
// ---------------------------------------------------------------------------

/// Collects the characters of `s`, in order.
pub fn chars_of(s: &str) -> (v: Vec<char>)
    ensures
        v@ == s@,
{
    let mut v: Vec<char> = Vec::new();
    for c in it: s.chars()
        invariant
            it.seq() == s@,
            v@ == it.seq().take(it.index() as int),
    {
        v.push(c);
    }
    v
}

/// `String::push`: appends one character at the end of the string.
#[verifier::external_body]
fn push_char(s: &mut String, c: char)
    ensures
        final(s)@ == old(s)@.push(c),
{
    s.push(c);
}

/// Builds a string holding exactly the characters of `v`.
pub fn string_of(v: &Vec<char>) -> (s: String)
    ensures
        s@ == v@,
{
    let mut s = String::new();
    for i in 0..v.len()
        invariant
            s@ == v@.take(i as int),
    {
        push_char(&mut s, v[i]);
        assert(v@.take(i + 1) == v@.take(i as int).push(v@[i as int]));
    }
    assert(v@.take(v.len() as int) == v@);
    s
}

/// Builds a string from a string slice.
pub fn owned(s: &str) -> (r: String)
    ensures
        r@ == s@,
{
    String::from_str(s)
}

/// Appends the characters of `tail` to `v`.
pub fn extend_chars(v: &mut Vec<char>, tail: &Vec<char>)
    ensures
        final(v)@ == old(v)@ + tail@,
{
    let ghost start = v@;
    for i in 0..tail.len()
        invariant
            v@ == start + tail@.take(i as int),
    {
        v.push(tail[i]);
        assert(tail@.take(i + 1) == tail@.take(i as int).push(tail@[i as int]));
    }
    assert(tail@.take(tail.len() as int) == tail@);
}

/// Appends the characters of a string slice to `v`.
pub fn extend_str(v: &mut Vec<char>, tail: &str)
    ensures
        final(v)@ == old(v)@ + tail@,
{
    let t = chars_of(tail);
    extend_chars(v, &t);
}

/// Concatenation of two string slices.
pub fn concat2(a: &str, b: &str) -> (r: String)
    ensures
        r@ == a@ + b@,
{
    let mut v = chars_of(a);
    extend_str(&mut v, b);
    string_of(&v)
}

/// Concatenation of three string slices.
pub fn concat3(a: &str, b: &str, c: &str) -> (r: String)
    ensures
        r@ == a@ + b@ + c@,
{
    let mut v = chars_of(a);
    extend_str(&mut v, b);
    extend_str(&mut v, c);
    string_of(&v)
}

// ---------------------------------------------------------------------------
// Comparisons
// ---------------------------------------------------------------------------

/// Whether two character sequences are equal.
pub fn chars_eq(a: &Vec<char>, b: &Vec<char>) -> (r: bool)
    ensures
        r == (a@ == b@),
{
    if a.len() != b.len() {
        return false;
    }
    for i in 0..a.len()
        invariant
            a.len() == b.len(),
            forall|k: int| 0 <= k < i ==> a@[k] == b@[k],
    {
        if a[i] != b[i] {
            return false;
        }
    }
    assert(a@ =~= b@);
    true
}

/// Whether two string slices hold the same characters.
pub fn str_eq(a: &str, b: &str) -> (r: bool)
    ensures
        r == (a@ == b@),
{
    let va = chars_of(a);
    let vb = chars_of(b);
    chars_eq(&va, &vb)
}

/// `needle` occurs in `hay` starting at position `i`.
pub open spec fn occurs_at(hay: Seq<char>, needle: Seq<char>, i: int) -> bool {
    0 <= i && i + needle.len() <= hay.len() && hay.subrange(i, i + needle.len()) == needle
}

/// `needle` is a substring of `hay` (the empty needle is in every text).
pub open spec fn has_substring(hay: Seq<char>, needle: Seq<char>) -> bool {
    exists|i: int| occurs_at(hay, needle, i)
}

/// `hay` begins with `prefix`.
pub open spec fn has_prefix(hay: Seq<char>, prefix: Seq<char>) -> bool {
    prefix.len() <= hay.len() && hay.take(prefix.len() as int) == prefix
}

fn occurs_at_exec(hay: &Vec<char>, needle: &Vec<char>, i: usize) -> (r: bool)
    requires
        i + needle.len() <= hay.len(),
    ensures
        r == occurs_at(hay@, needle@, i as int),
{
    for k in 0..needle.len()
        invariant
            i + needle.len() <= hay.len(),
            forall|j: int| 0 <= j < k ==> hay@[i + j] == needle@[j],
    {
        if hay[i + k] != needle[k] {
            assert(hay@.subrange(i as int, i + needle.len())[k as int] != needle@[k as int]);
            return false;
        }
    }
    assert(hay@.subrange(i as int, i + needle.len()) =~= needle@);
    true
}

/// Whether `needle` is a substring of `hay`.
pub fn contains_chars(hay: &Vec<char>, needle: &Vec<char>) -> (r: bool)
    ensures
        r == has_substring(hay@, needle@),
{
    if needle.len() > hay.len() {
        return false;
    }
    let last = hay.len() - needle.len();
    let mut i: usize = 0;
    loop
        invariant
            last == hay.len() - needle.len(),
            needle.len() <= hay.len(),
            i <= last,
            forall|j: int| 0 <= j < i ==> !occurs_at(hay@, needle@, j),
        decreases last - i,
    {
        if occurs_at_exec(hay, needle, i) {
            return true;
        }
        if i == last {
            return false;
        }
        i = i + 1;
    }
}

/// Whether the string slice `needle` is a substring of `hay`.
pub fn contains_str(hay: &Vec<char>, needle: &str) -> (r: bool)
    ensures
        r == has_substring(hay@, needle@),
{
    let n = chars_of(needle);
    contains_chars(hay, &n)
}

/// Whether `hay` begins with `prefix`.
pub fn starts_with_str(hay: &Vec<char>, prefix: &str) -> (r: bool)
    ensures
        r == has_prefix(hay@, prefix@),
{
    let p = chars_of(prefix);
    if p.len() > hay.len() {
        return false;
    }
    let r = occurs_at_exec(hay, &p, 0);
    assert(hay@.subrange(0, p.len() as int) == hay@.take(p.len() as int));
    r
}

// ---------------------------------------------------------------------------
// Lower case
// ---------------------------------------------------------------------------

/// The full Unicode lower-case mapping of a text, as `str::to_lowercase`
/// computes it.
pub uninterp spec fn spec_lowercase(s: Seq<char>) -> Seq<char>;

/// `s` is all ASCII.
pub open spec fn is_ascii(s: Seq<char>) -> bool {
    forall|i: int| 0 <= i < s.len() ==> (#[trigger] s[i]) < '\u{80}'
}

/// ASCII lower-casing: `A`–`Z` become `a`–`z`, every other character stays.
pub open spec fn ascii_lower(s: Seq<char>) -> Seq<char> {
    s.map_values(|c: char| if 'A' <= c && c <= 'Z' { ((c as int) + 32) as char } else { c })
}

/// `str::to_lowercase`. The contract names the result, a function of the
/// text alone, and states what the Unicode mapping does on ASCII: it lowers
/// `A`–`Z` and keeps every other ASCII character.
#[verifier::external_body]
pub(crate) fn to_lowercase(s: &str) -> (r: String)
    ensures
        r@ == spec_lowercase(s@),
        is_ascii(s@) ==> r@ == ascii_lower(s@),
{
    s.to_lowercase()
}

// ---------------------------------------------------------------------------
// White space, words and trimming
// ---------------------------------------------------------------------------

/// The Unicode `White_Space` property, which `char::is_whitespace` tests.
pub open spec fn spec_is_whitespace(c: char) -> bool {
    ||| ('\u{9}' <= c && c <= '\u{d}')
    ||| c == ' '
    ||| c == '\u{85}'
    ||| c == '\u{a0}'
    ||| c == '\u{1680}'
    ||| ('\u{2000}' <= c && c <= '\u{200a}')
    ||| c == '\u{2028}'
    ||| c == '\u{2029}'
    ||| c == '\u{202f}'
    ||| c == '\u{205f}'
    ||| c == '\u{3000}'
}

/// Whether `c` has the Unicode `White_Space` property.
pub fn is_whitespace(c: char) -> (r: bool)
    ensures
        r == spec_is_whitespace(c),
{
    ('\u{9}' <= c && c <= '\u{d}') || c == ' ' || c == '\u{85}' || c == '\u{a0}' || c
        == '\u{1680}' || ('\u{2000}' <= c && c <= '\u{200a}') || c == '\u{2028}' || c
        == '\u{2029}' || c == '\u{202f}' || c == '\u{205f}' || c == '\u{3000}'
}

/// The words of a text: its maximal runs of non-white-space characters, in
/// order (what `str::split_whitespace` yields). Defined on prefixes.
pub open spec fn spec_words(s: Seq<char>) -> Seq<Seq<char>>
    decreases s.len(),
{
    if s.len() == 0 {
        seq![]
    } else {
        let w = spec_words(s.drop_last());
        let c = s.last();
        if spec_is_whitespace(c) {
            w
        } else if s.len() >= 2 && !spec_is_whitespace(s[s.len() - 2]) && w.len() > 0 {
            w.drop_last().push(w.last().push(c))
        } else {
            w.push(seq![c])
        }
    }
}

/// The views of a vector of character vectors.
pub open spec fn views(v: Seq<Vec<char>>) -> Seq<Seq<char>> {
    v.map_values(|w: Vec<char>| w@)
}

proof fn lemma_words_nonempty_when_in_word(s: Seq<char>)
    requires
        s.len() > 0,
        !spec_is_whitespace(s.last()),
    ensures
        spec_words(s).len() > 0,
        spec_words(s).last().len() > 0,
    decreases s.len(),
{
    let w = spec_words(s.drop_last());
    if s.len() >= 2 && !spec_is_whitespace(s[s.len() - 2]) {
        lemma_words_nonempty_when_in_word(s.drop_last());
        assert(s.drop_last().last() == s[s.len() - 2]);
    }
}

/// Splits a text into its words (`str::split_whitespace`).
pub fn split_whitespace(s: &Vec<char>) -> (words: Vec<Vec<char>>)
    ensures
        views(words@) == spec_words(s@),
{
    let mut words: Vec<Vec<char>> = Vec::new();
    let mut cur: Vec<char> = Vec::new();
    let mut in_word = false;
    for i in 0..s.len()
        invariant
            in_word == (i > 0 && !spec_is_whitespace(s@[i - 1])),
            in_word ==> cur@.len() > 0,
            !in_word ==> cur@.len() == 0,
            spec_words(s@.take(i as int)) == if in_word {
                views(words@).push(cur@)
            } else {
                views(words@)
            },
    {
        let c = s[i];
        let ghost prefix = s@.take(i as int);
        assert(s@.take(i + 1).drop_last() == prefix);
        assert(s@.take(i + 1).last() == c);
        if is_whitespace(c) {
            if in_word {
                let w = cur;
                cur = Vec::new();
                let ghost before = words@;
                words.push(w);
                assert(views(words@) =~= views(before).push(w@));
            }
            in_word = false;
        } else {
            if in_word {
                proof {
                    assert(s@.take(i + 1)[i - 1] == s@[i - 1]);
                    lemma_words_nonempty_when_in_word(prefix);
                    assert(prefix.last() == s@[i - 1]);
                }
                cur.push(c);
            } else {
                cur.push(c);
                assert(cur@ =~= seq![c]);
                if i > 0 {
                    assert(s@.take(i + 1)[i - 1] == s@[i - 1]);
                }
            }
            in_word = true;
        }
    }
    assert(s@.take(s.len() as int) == s@);
    if in_word {
        let w = cur;
        words.push(w);
        assert(views(words@) =~= views(words@.drop_last()).push(w@));
    }
    words
}

/// Words joined by single spaces (`[&str]::join(" ")`).
pub open spec fn spec_join_space(ws: Seq<Seq<char>>) -> Seq<char>
    decreases ws.len(),
{
    if ws.len() == 0 {
        seq![]
    } else if ws.len() == 1 {
        ws[0]
    } else {
        spec_join_space(ws.drop_last()) + seq![' '] + ws.last()
    }
}

/// Joins `words[from..to]` with single spaces.
pub fn join_space(words: &Vec<Vec<char>>, from: usize, to: usize) -> (r: Vec<char>)
    requires
        from <= to <= words.len(),
    ensures
        r@ == spec_join_space(views(words@).subrange(from as int, to as int)),
{
    let mut r: Vec<char> = Vec::new();
    let mut i = from;
    while i < to
        invariant
            from <= i <= to <= words.len(),
            r@ == spec_join_space(views(words@).subrange(from as int, i as int)),
        decreases to - i,
    {
        let ghost before = views(words@).subrange(from as int, i as int);
        let ghost after = views(words@).subrange(from as int, i + 1);
        assert(after.drop_last() =~= before);
        assert(after.last() == words@[i as int]@);
        if i > from {
            r.push(' ');
        } else {
            assert(r@ =~= seq![]);
        }
        extend_chars(&mut r, &words[i]);
        if i == from {
            assert(r@ =~= after[0]);
        }
        i = i + 1;
    }
    r
}

/// The text without its leading white space.
pub open spec fn spec_trim_start(s: Seq<char>) -> Seq<char>
    decreases s.len(),
{
    if s.len() > 0 && spec_is_whitespace(s[0]) {
        spec_trim_start(s.skip(1))
    } else {
        s
    }
}

/// The text without its trailing white space.
pub open spec fn spec_trim_end(s: Seq<char>) -> Seq<char>
    decreases s.len(),
{
    if s.len() > 0 && spec_is_whitespace(s.last()) {
        spec_trim_end(s.drop_last())
    } else {
        s
    }
}

/// The text without leading and trailing white space (`str::trim`).
pub open spec fn spec_trim(s: Seq<char>) -> Seq<char> {
    spec_trim_end(spec_trim_start(s))
}

/// Removes leading and trailing white space.
pub fn trim(s: &Vec<char>) -> (r: Vec<char>)
    ensures
        r@ == spec_trim(s@),
{
    let mut start: usize = 0;
    assert(s@.skip(0) =~= s@);
    while start < s.len() && is_whitespace(s[start])
        invariant
            start <= s.len(),
            spec_trim_start(s@) == spec_trim_start(s@.skip(start as int)),
        decreases s.len() - start,
    {
        assert(s@.skip(start as int).skip(1) =~= s@.skip(start + 1));
        start = start + 1;
    }
    let mut end: usize = s.len();
    assert(s@.skip(start as int) =~= s@.subrange(start as int, end as int));
    while end > start && is_whitespace(s[end - 1])
        invariant
            start <= end <= s.len(),
            spec_trim_start(s@) == s@.skip(start as int) || start < s.len(),
            spec_trim_end(s@.subrange(start as int, s.len() as int)) == spec_trim_end(
                s@.subrange(start as int, end as int),
            ),
        decreases end - start,
    {
        assert(s@.subrange(start as int, end as int).drop_last() =~= s@.subrange(
            start as int,
            end - 1,
        ));
        end = end - 1;
    }
    let mut r: Vec<char> = Vec::new();
    let mut k = start;
    while k < end
        invariant
            start <= k <= end <= s.len(),
            r@ == s@.subrange(start as int, k as int),
        decreases end - k,
    {
        r.push(s[k]);
        assert(s@.subrange(start as int, k + 1) =~= s@.subrange(start as int, k as int).push(
            s@[k as int],
        ));
        k = k + 1;
    }
    proof {
        assert(spec_trim_start(s@.skip(start as int)) == s@.skip(start as int));
        assert(s@.skip(start as int) =~= s@.subrange(start as int, s.len() as int));
        if end > start {
            assert(!spec_is_whitespace(s@.subrange(start as int, end as int).last()));
        }
    }
    r
}

// ---------------------------------------------------------------------------
// Decimal numbers
// ---------------------------------------------------------------------------

/// The ASCII digit for `d < 10`.
pub open spec fn digit_char(d: nat) -> char {
    ((d + 48) as u32) as char
}

/// The decimal representation of `n`, without sign or leading zeros.
pub open spec fn spec_decimal(n: nat) -> Seq<char>
    decreases n,
{
    if n < 10 {
        seq![digit_char(n)]
    } else {
        spec_decimal(n / 10).push(digit_char(n % 10))
    }
}

fn digit(d: u64) -> (c: char)
    requires
        d < 10,
    ensures
        c == digit_char(d as nat),
{
    if d == 0 {
        '0'
    } else if d == 1 {
        '1'
    } else if d == 2 {
        '2'
    } else if d == 3 {
        '3'
    } else if d == 4 {
        '4'
    } else if d == 5 {
        '5'
    } else if d == 6 {
        '6'
    } else if d == 7 {
        '7'
    } else if d == 8 {
        '8'
    } else {
        '9'
    }
}

/// The decimal characters of `n`.
pub fn decimal_chars(n: u64) -> (r: Vec<char>)
    ensures
        r@ == spec_decimal(n as nat),
    decreases n,
{
    if n < 10 {
        let mut r: Vec<char> = Vec::new();
        r.push(digit(n));
        assert(r@ =~= seq![digit_char(n as nat)]);
        r
    } else {
        let mut r = decimal_chars(n / 10);
        r.push(digit(n % 10));
        r
    }
}

/// The decimal representation of `n` (what `n.to_string()` gives).
pub fn decimal_string(n: u64) -> (r: String)
    ensures
        r@ == spec_decimal(n as nat),
{
    let v = decimal_chars(n);
    string_of(&v)
}

/// `c` is an ASCII decimal digit.
pub open spec fn is_digit(c: char) -> bool {
    '0' <= c && c <= '9'
}

/// The value of a run of decimal digits.
pub open spec fn digits_value(s: Seq<char>) -> nat
    decreases s.len(),
{
    if s.len() == 0 {
        0
    } else {
        digits_value(s.drop_last()) * 10 + ((s.last() as u32) - 48) as nat
    }
}

/// The text after an optional leading `+`.
pub open spec fn unsigned_digits(s: Seq<char>) -> Seq<char> {
    if s.len() > 0 && s[0] == '+' {
        s.skip(1)
    } else {
        s
    }
}

/// What `str::parse::<u32>` returns: an optional `+` followed by one or more
/// ASCII digits whose value fits in a `u32`; any other text is refused.
pub open spec fn spec_parse_u32(s: Seq<char>) -> Option<u32> {
    let digits = unsigned_digits(s);
    if digits.len() == 0 || exists|i: int| 0 <= i < digits.len() && !is_digit(digits[i]) {
        None
    } else if digits_value(digits) > u32::MAX {
        None
    } else {
        Some(digits_value(digits) as u32)
    }
}

proof fn lemma_digits_value_monotone(s: Seq<char>, k: int)
    requires
        0 <= k <= s.len(),
        forall|i: int| 0 <= i < s.len() ==> is_digit(s[i]),
    ensures
        digits_value(s.take(k)) <= digits_value(s),
    decreases s.len() - k,
{
    if k < s.len() {
        lemma_digits_value_monotone(s, k + 1);
        assert(s.take(k + 1).drop_last() =~= s.take(k));
    } else {
        assert(s.take(k) =~= s);
    }
}

/// Parses a decimal `u32` as `str::parse::<u32>` does.
pub fn parse_u32(s: &Vec<char>) -> (r: Option<u32>)
    ensures
        r == spec_parse_u32(s@),
{
    let start: usize = if s.len() > 0 && s[0] == '+' {
        1
    } else {
        0
    };
    let ghost digits = unsigned_digits(s@);
    assert(digits =~= s@.skip(start as int));
    if start >= s.len() {
        assert(digits.len() == 0);
        return None;
    }
    for i in start..s.len()
        invariant
            start <= s.len(),
            digits == s@.skip(start as int),
            digits == unsigned_digits(s@),
            forall|k: int| start <= k < i ==> is_digit(s@[k]),
    {
        if !('0' <= s[i] && s[i] <= '9') {
            assert(digits[i - start] == s@[i as int]);
            assert(!is_digit(digits[i - start]));
            assert(exists|j: int| 0 <= j < digits.len() && !is_digit(digits[j]));
            assert(spec_parse_u32(s@) is None);
            return None;
        }
    }
    assert forall|k: int| 0 <= k < digits.len() implies is_digit(digits[k]) by {
        assert(digits[k] == s@[k + start]);
    }
    let mut value: u64 = 0;
    let mut i = start;
    assert(digits.take(0) =~= seq![]);
    while i < s.len()
        invariant
            start <= i <= s.len(),
            digits == s@.skip(start as int),
            digits == unsigned_digits(s@),
            forall|k: int| 0 <= k < digits.len() ==> is_digit(digits[k]),
            value as nat == digits_value(digits.take(i - start)),
            value <= u32::MAX,
        decreases s.len() - i,
    {
        assert(digits[i - start] == s@[i as int]);
        assert(is_digit(s@[i as int]));
        let d = ((s[i] as u32) - 48) as u64;
        assert(digits.take(i + 1 - start).drop_last() =~= digits.take(i - start));
        assert(digits.take(i + 1 - start).last() == s@[i as int]);
        let next = value * 10 + d;
        if next > 4294967295 {
            proof {
                lemma_digits_value_monotone(digits, i + 1 - start);
                assert(!(exists|j: int| 0 <= j < digits.len() && !is_digit(digits[j])));
                assert(digits_value(digits) > u32::MAX);
                assert(digits.len() > 0);
                assert(spec_parse_u32(s@) is None);
            }
            return None;
        }
        value = next;
        i = i + 1;
    }
    assert(digits.take(s.len() - start) =~= digits);
    assert(!(exists|j: int| 0 <= j < digits.len() && !is_digit(digits[j])));
    Some(value as u32)
}

// ---------------------------------------------------------------------------
// Path names
// ---------------------------------------------------------------------------

/// `c` separates path components (both separators of Windows paths).
pub open spec fn is_separator(c: char) -> bool {
    c == '/' || c == '\\'
}

/// The characters after the last separator of `s`.
pub open spec fn spec_last_segment(s: Seq<char>) -> Seq<char>
    decreases s.len(),
{
    if s.len() == 0 || is_separator(s.last()) {
        seq![]
    } else {
        spec_last_segment(s.drop_last()).push(s.last())
    }
}

/// `s` with trailing separators and trailing `.` components removed.
pub open spec fn spec_strip_tail(s: Seq<char>) -> Seq<char>
    decreases s.len(),
{
    if s.len() > 0 && is_separator(s.last()) {
        spec_strip_tail(s.drop_last())
    } else if spec_last_segment(s) == seq!['.'] && s.len() >= 2 {
        spec_strip_tail(s.drop_last())
    } else {
        s
    }
}

/// `seg` is a drive prefix such as `C:`.
pub open spec fn is_drive(seg: Seq<char>) -> bool {
    seg.len() == 2 && seg[1] == ':' && (('a' <= seg[0] && seg[0] <= 'z') || ('A' <= seg[0]
        && seg[0] <= 'Z'))
}

/// The number of separators in `s`.
pub open spec fn separator_count(s: Seq<char>) -> nat
    decreases s.len(),
{
    if s.len() == 0 {
        0
    } else {
        separator_count(s.drop_last()) + if is_separator(s.last()) {
            1nat
        } else {
            0nat
        }
    }
}

/// `t` is only a UNC or device prefix (`\\server\share`, `\\server`,
/// `\\?\C:`): two separators, then at most two components.
pub open spec fn is_unc_root(t: Seq<char>) -> bool {
    t.len() >= 2 && is_separator(t[0]) && is_separator(t[1]) && separator_count(t.skip(2)) <= 1
}

/// The final component of a path without trailing separators or `.`
/// components: the last segment, without a drive prefix (`C:foo` gives
/// `foo`); none when it is empty, `.` or `..`, or when the path is only a
/// UNC prefix.
pub open spec fn stripped_file_name(t: Seq<char>) -> Option<Seq<char>> {
    let last = spec_last_segment(t);
    let name = if last.len() == t.len() && t.len() >= 2 && is_drive(t.take(2)) {
        last.skip(2)
    } else {
        last
    };
    if name.len() == 0 || name == seq!['.', '.'] || name == seq!['.'] || is_unc_root(t) {
        None
    } else {
        Some(name)
    }
}

/// The final component of a path, read the way Windows reads paths: `/` and
/// `\` both separate components, trailing separators and `.` components are
/// ignored, a drive prefix is not part of it, and a path whose final
/// component is `..` or empty, or that is only a drive or a UNC prefix, has
/// none.
pub open spec fn spec_file_name(s: Seq<char>) -> Option<Seq<char>> {
    stripped_file_name(spec_strip_tail(s))
}

proof fn lemma_last_segment_suffix(s: Seq<char>)
    ensures
        spec_last_segment(s).len() <= s.len(),
        spec_last_segment(s) =~= s.skip(s.len() - spec_last_segment(s).len()),
        forall|i: int|
            0 <= i < spec_last_segment(s).len() ==> !is_separator(#[trigger] spec_last_segment(s)[i]),
        spec_last_segment(s).len() < s.len() ==> is_separator(
            s[s.len() - spec_last_segment(s).len() - 1],
        ),
    decreases s.len(),
{
    if s.len() > 0 && !is_separator(s.last()) {
        lemma_last_segment_suffix(s.drop_last());
    }
}

fn last_segment_start(s: &Vec<char>, end: usize) -> (start: usize)
    requires
        end <= s.len(),
    ensures
        start <= end,
        s@.subrange(start as int, end as int) == spec_last_segment(s@.take(end as int)),
{
    let mut start = end;
    while start > 0 && !(s[start - 1] == '/' || s[start - 1] == '\\')
        invariant
            start <= end <= s.len(),
            forall|k: int| start <= k < end ==> !is_separator(s@[k]),
        decreases start,
    {
        start = start - 1;
    }
    proof {
        let ghost t = s@.take(end as int);
        lemma_last_segment_suffix(t);
        let n = spec_last_segment(t).len();
        if n > end - start {
            assert(is_separator(t[start - 1]) || start == 0);
            assert(spec_last_segment(t)[(start - 1) - (end - n)] == t[start - 1]);
        }
        if n < end - start {
            assert(is_separator(t[end - n - 1]));
            assert(!is_separator(s@[end - n - 1]));
        }
        assert(s@.subrange(start as int, end as int) =~= t.skip(end - n));
    }
    start
}

fn copy_range(s: &Vec<char>, from: usize, end: usize) -> (r: Vec<char>)
    requires
        from <= end <= s.len(),
    ensures
        r@ == s@.subrange(from as int, end as int),
{
    let mut r: Vec<char> = Vec::new();
    let mut k = from;
    while k < end
        invariant
            from <= k <= end <= s.len(),
            r@ == s@.subrange(from as int, k as int),
        decreases end - k,
    {
        r.push(s[k]);
        assert(s@.subrange(from as int, k + 1) =~= s@.subrange(from as int, k as int).push(
            s@[k as int],
        ));
        k = k + 1;
    }
    r
}

/// The final component of `s[..end]`, a path with no trailing separator or
/// `.` component whose last segment starts at `start`.
fn name_of_stripped(s: &Vec<char>, start: usize, end: usize) -> (r: Option<Vec<char>>)
    requires
        start <= end <= s.len(),
        s@.subrange(start as int, end as int) == spec_last_segment(s@.take(end as int)),
    ensures
        match r {
            Some(v) => stripped_file_name(s@.take(end as int)) == Some(v@),
            None => stripped_file_name(s@.take(end as int)) is None,
        },
{
    let ghost t = s@.take(end as int);
    if end >= 2 && (s[0] == '/' || s[0] == '\\') && (s[1] == '/' || s[1] == '\\') {
        let mut count: usize = 0;
        let mut j: usize = 2;
        assert(t.skip(2).take(0) =~= seq![]);
        while j < end
            invariant
                2 <= j <= end <= s.len(),
                t == s@.take(end as int),
                count == separator_count(t.skip(2).take(j - 2)),
                count <= j - 2,
            decreases end - j,
        {
            assert(t.skip(2).take(j - 1).drop_last() =~= t.skip(2).take(j - 2));
            assert(t.skip(2).take(j - 1).last() == s@[j as int]);
            if s[j] == '/' || s[j] == '\\' {
                count = count + 1;
            }
            j = j + 1;
        }
        assert(t.skip(2).take(end - 2) =~= t.skip(2));
        if count <= 1 {
            return None;
        }
    }
    let from = if start == 0 && end >= 2 && s[1] == ':' && (('a' <= s[0] && s[0] <= 'z') || ('A'
        <= s[0] && s[0] <= 'Z')) {
        2
    } else {
        start
    };
    let seg = copy_range(s, from, end);
    proof {
        let last = spec_last_segment(t);
        assert(last.len() == end - start);
        if start == 0 && end >= 2 {
            assert(t.take(2) =~= seq![s@[0], s@[1]]);
        }
        if last.len() == t.len() && t.len() >= 2 && is_drive(t.take(2)) {
            assert(t.take(2)[0] == s@[0] && t.take(2)[1] == s@[1]);
            assert(seg@ =~= last.skip(2));
        } else {
            if start == 0 && end >= 2 && s@[1] == ':' && (('a' <= s@[0] && s@[0] <= 'z') || ('A'
                <= s@[0] && s@[0] <= 'Z')) {
                assert(is_drive(t.take(2)));
            }
            assert(seg@ =~= last);
        }
    }
    if seg.len() == 0 {
        return None;
    }
    if seg.len() == 1 && seg[0] == '.' {
        assert(seg@ =~= seq!['.']);
        return None;
    }
    if seg.len() == 2 && seg[0] == '.' && seg[1] == '.' {
        assert(seg@ =~= seq!['.', '.']);
        return None;
    }
    proof {
        if seg@ == seq!['.', '.'] {
            assert(seg@[0] == '.' && seg@[1] == '.');
        }
        if seg@ == seq!['.'] {
            assert(seg@[0] == '.');
        }
    }
    Some(seg)
}

/// The final component of a path (see [`spec_file_name`]).
pub fn file_name(s: &Vec<char>) -> (r: Option<Vec<char>>)
    ensures
        match r {
            Some(v) => spec_file_name(s@) == Some(v@),
            None => spec_file_name(s@) is None,
        },
{
    let mut end = s.len();
    assert(s@.take(end as int) =~= s@);
    loop
        invariant
            end <= s.len(),
            spec_strip_tail(s@) == spec_strip_tail(s@.take(end as int)),
        decreases end,
    {
        let ghost t = s@.take(end as int);
        if end > 0 && (s[end - 1] == '/' || s[end - 1] == '\\') {
            assert(t.drop_last() =~= s@.take(end - 1));
            end = end - 1;
        } else {
            let start = last_segment_start(s, end);
            if end >= 2 && end - start == 1 && s[start] == '.' {
                assert(spec_last_segment(t) =~= seq!['.']);
                assert(t.drop_last() =~= s@.take(end - 1));
                end = end - 1;
            } else {
                proof {
                    if spec_last_segment(t) == seq!['.'] && t.len() >= 2 {
                        assert(s@.subrange(start as int, end as int).len() == end - start);
                        assert(end - start == 1);
                        assert(s@.subrange(start as int, end as int)[0] == s@[start as int]);
                    }
                }
                assert(spec_strip_tail(t) == t);
                return name_of_stripped(s, start, end);
            }
        }
    }
}

/// `s` without its trailing separators.
pub open spec fn spec_trim_separators(s: Seq<char>) -> Seq<char>
    decreases s.len(),
{
    if s.len() > 0 && is_separator(s.last()) {
        spec_trim_separators(s.drop_last())
    } else {
        s
    }
}

/// The directory that holds `s`: `s` without its final component, keeping
/// the separator that ends it. A path of one component, or of none, has no
/// parent here.
pub open spec fn spec_parent_dir(s: Seq<char>) -> Option<Seq<char>> {
    let t = spec_trim_separators(s);
    let seg = spec_last_segment(t);
    let head = t.take(t.len() - seg.len());
    if seg.len() == 0 || head.len() == 0 {
        None
    } else {
        Some(head)
    }
}

/// The path of `name` inside directory `dir`, joined with a Windows
/// separator when `dir` does not already end with one.
pub open spec fn spec_join_path(dir: Seq<char>, name: Seq<char>) -> Seq<char> {
    if dir.len() == 0 {
        name
    } else if is_separator(dir.last()) {
        dir + name
    } else {
        dir + seq!['\\'] + name
    }
}

/// The parent directory of a path (see [`spec_parent_dir`]).
pub fn parent_dir(s: &Vec<char>) -> (r: Option<Vec<char>>)
    ensures
        match r {
            Some(v) => spec_parent_dir(s@) == Some(v@),
            None => spec_parent_dir(s@) is None,
        },
{
    let mut end = s.len();
    assert(s@.take(end as int) =~= s@);
    while end > 0 && (s[end - 1] == '/' || s[end - 1] == '\\')
        invariant
            end <= s.len(),
            spec_trim_separators(s@) == spec_trim_separators(s@.take(end as int)),
        decreases end,
    {
        assert(s@.take(end as int).drop_last() =~= s@.take(end - 1));
        end = end - 1;
    }
    let ghost t = s@.take(end as int);
    assert(spec_trim_separators(t) == t);
    let start = last_segment_start(s, end);
    if start == end || start == 0 {
        assert(s@.subrange(start as int, end as int).len() == end - start);
        return None;
    }
    let mut head: Vec<char> = Vec::new();
    let mut k: usize = 0;
    while k < start
        invariant
            k <= start <= end <= s.len(),
            head@ == s@.take(k as int),
        decreases start - k,
    {
        head.push(s[k]);
        assert(s@.take(k + 1) =~= s@.take(k as int).push(s@[k as int]));
        k = k + 1;
    }
    proof {
        let seg = spec_last_segment(t);
        assert(s@.subrange(start as int, end as int).len() == end - start);
        assert(seg.len() == end - start);
        assert(t.take(t.len() - seg.len()) =~= s@.take(start as int));
    }
    Some(head)
}

/// The path of `name` inside `dir` (see [`spec_join_path`]).
pub fn join_path(dir: &Vec<char>, name: &str) -> (r: Vec<char>)
    ensures
        r@ == spec_join_path(dir@, name@),
{
    let mut r: Vec<char> = Vec::new();
    extend_chars(&mut r, dir);
    if dir.len() > 0 && !(dir[dir.len() - 1] == '/' || dir[dir.len() - 1] == '\\') {
        r.push('\\');
    }
    extend_str(&mut r, name);
    proof {
        if dir.len() == 0 {
            assert(r@ =~= name@);
        }
    }
    r
}


// ---------------------------------------------------------------------------
// Replacing
// ---------------------------------------------------------------------------

/// `s` with every occurrence of `from` replaced by `to`, scanning from the
/// left and never overlapping two occurrences (as `str::replace` does).
pub open spec fn spec_replace(s: Seq<char>, from: Seq<char>, to: Seq<char>) -> Seq<char>
    decreases s.len(),
{
    if from.len() == 0 || s.len() < from.len() {
        s
    } else if s.take(from.len() as int) == from {
        to + spec_replace(s.skip(from.len() as int), from, to)
    } else {
        seq![s[0]] + spec_replace(s.skip(1), from, to)
    }
}

/// Replaces every occurrence of a non-empty `from` in `s` by `to`.
pub fn replace_all(s: &str, from: &str, to: &str) -> (r: String)
    requires
        from@.len() > 0,
    ensures
        r@ == spec_replace(s@, from@, to@),
{
    let text = chars_of(s);
    let pat = chars_of(from);
    let rep = chars_of(to);
    let mut out: Vec<char> = Vec::new();
    let mut i: usize = 0;
    assert(text@.skip(0) =~= text@);
    assert(out@ + spec_replace(text@, pat@, rep@) =~= spec_replace(text@, pat@, rep@));
    while i < text.len()
        invariant
            i <= text@.len(),
            pat@ == from@,
            rep@ == to@,
            text@ == s@,
            pat@.len() > 0,
            out@ + spec_replace(text@.skip(i as int), pat@, rep@) == spec_replace(text@, pat@, rep@),
        decreases text@.len() - i,
    {
        let ghost rest = text@.skip(i as int);
        if pat.len() <= text.len() - i && occurs_at_exec(&text, &pat, i) {
            assert(rest.take(pat@.len() as int) =~= text@.subrange(i as int, i + pat@.len()));
            assert(rest.skip(pat@.len() as int) =~= text@.skip(i + pat@.len()));
            extend_chars(&mut out, &rep);
            i = i + pat.len();
        } else {
            proof {
                if rest.len() >= pat@.len() {
                    assert(rest.take(pat@.len() as int) =~= text@.subrange(
                        i as int,
                        i + pat@.len(),
                    ));
                }
            }
            assert(rest.skip(1) =~= text@.skip(i + 1));
            out.push(text[i]);
            i = i + 1;
        }
    }
    assert(text@.skip(i as int) =~= seq![]);
    string_of(&out)
}

} // verus!
