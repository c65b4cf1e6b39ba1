//! Character-level text helpers shared by the parsers and the form editors.
//!
//! Strings are reasoned about through their view, a `Seq<char>`.

use vstd::prelude::*;
use vstd::string::StrSliceExecFns;
use vstd::string::StringExecFns;

verus! {

/// The characters for which `char::is_whitespace` holds (Unicode `White_Space`).
pub open spec fn is_ws(c: char) -> bool {
    ||| ('\u{9}' <= c && c <= '\u{d}')
    ||| c == ' '
    ||| c == '\u{85}'
    ||| c == '\u{a0}'
    ||| c == '\u{1680}'
    ||| ('\u{2000}' <= c && c <= '\u{200a}')
    ||| c == '\u{2028}'
    ||| c == '\u{2029}'
    ||| c == '\u{202f}'
    ||| c == '\u{205f}'
    ||| c == '\u{3000}'
}

/// `s` without its leading whitespace.
pub open spec fn trim_start(s: Seq<char>) -> Seq<char>
    decreases s.len(),
{
    if s.len() > 0 && is_ws(s[0]) {
        trim_start(s.drop_first())
    } else {
        s
    }
}

/// `s` without its trailing whitespace.
pub open spec fn trim_end(s: Seq<char>) -> Seq<char>
    decreases s.len(),
{
    if s.len() > 0 && is_ws(s.last()) {
        trim_end(s.drop_last())
    } else {
        s
    }
}

/// `s` without leading and trailing whitespace, as `str::trim` gives it.
pub open spec fn trim(s: Seq<char>) -> Seq<char> {
    trim_end(trim_start(s))
}

/// Whether `s` holds only whitespace (or nothing).
pub open spec fn is_blank(s: Seq<char>) -> bool {
    forall|i: int| 0 <= i < s.len() ==> is_ws(#[trigger] s[i])
}

/// Executable check of `is_ws`.
pub fn char_is_ws(c: char) -> (res: bool)
    ensures
        res == is_ws(c),
{
    ('\u{9}' <= c && c <= '\u{d}') || c == ' ' || c == '\u{85}' || c == '\u{a0}' || c == '\u{1680}'
        || ('\u{2000}' <= c && c <= '\u{200a}') || c == '\u{2028}' || c == '\u{2029}' || c
        == '\u{202f}' || c == '\u{205f}' || c == '\u{3000}'
}

} // verus!

verus! {

/// Appends one character to a `String`.
///
/// Calls `String::push`, which std documents as appending the given `char`
/// to the end of the string; the contract claims exactly that.
#[verifier::external_body]
pub(crate) fn push_char(s: &mut String, c: char)
    ensures
        final(s)@ == old(s)@.push(c),
{
    s.push(c);
}

/// The characters of `s`, in order.
pub fn chars_of(s: &str) -> (v: Vec<char>)
    ensures
        v@ == s@,
{
    let n = s.unicode_len();
    let mut v: Vec<char> = Vec::new();
    let mut i: usize = 0;
    while i < n
        invariant
            n == s@.len(),
            i <= n,
            v@ == s@.subrange(0, i as int),
        decreases n - i,
    {
        let c = s.get_char(i);
        v.push(c);
        i = i + 1;
        assert(v@ =~= s@.subrange(0, i as int));
    }
    assert(v@ =~= s@);
    v
}

/// A `String` holding the characters of `cs`, in order.
pub fn string_of(cs: &[char]) -> (s: String)
    ensures
        s@ == cs@,
{
    let mut s = String::new();
    let mut i: usize = 0;
    while i < cs.len()
        invariant
            i <= cs@.len(),
            s@ == cs@.subrange(0, i as int),
        decreases cs@.len() - i,
    {
        push_char(&mut s, cs[i]);
        i = i + 1;
        assert(s@ =~= cs@.subrange(0, i as int));
    }
    assert(s@ =~= cs@);
    s
}

/// The characters of `s` from `start` (inclusive) to `end` (exclusive).
pub fn sub_chars(s: &[char], start: usize, end: usize) -> (r: Vec<char>)
    requires
        start <= end <= s@.len(),
    ensures
        r@ == s@.subrange(start as int, end as int),
{
    let mut r: Vec<char> = Vec::new();
    let mut i = start;
    while i < end
        invariant
            start <= i <= end,
            end <= s@.len(),
            r@ == s@.subrange(start as int, i as int),
        decreases end - i,
    {
        r.push(s[i]);
        i = i + 1;
        assert(r@ =~= s@.subrange(start as int, i as int));
    }
    r
}

proof fn lemma_trim_start_step(s: Seq<char>, i: int)
    requires
        0 <= i < s.len(),
        is_ws(s[i]),
    ensures
        trim_start(s.subrange(i, s.len() as int)) == trim_start(s.subrange(i + 1, s.len() as int)),
{
    let t = s.subrange(i, s.len() as int);
    assert(t.drop_first() =~= s.subrange(i + 1, s.len() as int));
}

proof fn lemma_trim_end_step(s: Seq<char>, j: int)
    requires
        0 < j <= s.len(),
        is_ws(s[j - 1]),
    ensures
        trim_end(s.subrange(0, j)) == trim_end(s.subrange(0, j - 1)),
{
    let t = s.subrange(0, j);
    assert(t.drop_last() =~= s.subrange(0, j - 1));
}

/// The index range `[a, b)` of `s` that `trim` keeps.
pub fn trim_bounds(s: &[char]) -> (r: (usize, usize))
    ensures
        r.0 <= r.1 <= s@.len(),
        trim(s@) == s@.subrange(r.0 as int, r.1 as int),
        trim_start(s@) == s@.subrange(r.0 as int, s@.len() as int),
{
    let n = s.len();
    let mut a: usize = 0;
    assert(s@.subrange(0, n as int) =~= s@);
    while a < n && char_is_ws(s[a])
        invariant
            a <= n,
            n == s@.len(),
            trim_start(s@) == trim_start(s@.subrange(a as int, n as int)),
        decreases n - a,
    {
        proof {
            lemma_trim_start_step(s@, a as int);
        }
        a = a + 1;
    }
    let ghost t = s@.subrange(a as int, n as int);
    assert(trim_start(s@) == t);
    let mut b: usize = n;
    assert(t.subrange(0, (b - a) as int) =~= t);
    while b > a && char_is_ws(s[b - 1])
        invariant
            a <= b <= n,
            n == s@.len(),
            t == s@.subrange(a as int, n as int),
            trim_end(t) == trim_end(t.subrange(0, (b - a) as int)),
        decreases b,
    {
        proof {
            lemma_trim_end_step(t, (b - a) as int);
            assert(t.subrange(0, (b - a - 1) as int) =~= t.subrange(0, (b - 1 - a) as int));
        }
        b = b - 1;
    }
    let ghost u = t.subrange(0, (b - a) as int);
    assert(u =~= s@.subrange(a as int, b as int));
    assert(trim_end(u) == u);
    (a, b)
}

/// `trim` on a character slice.
pub fn trim_chars(s: &[char]) -> (r: Vec<char>)
    ensures
        r@ == trim(s@),
{
    let (a, b) = trim_bounds(s);
    sub_chars(s, a, b)
}

/// `str::trim`, giving an owned `String`.
pub fn trim_str(s: &str) -> (r: String)
    ensures
        r@ == trim(s@),
{
    let cs = chars_of(s);
    let t = trim_chars(&cs);
    string_of(&t)
}

/// Whether `s` is empty once trimmed.
pub fn is_blank_str(s: &str) -> (r: bool)
    ensures
        r == (trim(s@).len() == 0),
{
    let t = trim_str(s);
    t.as_str().unicode_len() == 0
}

} // verus!

verus! {

/// Whether two character slices are equal.
pub fn chars_eq(a: &[char], b: &[char]) -> (r: bool)
    ensures
        r == (a@ == b@),
{
    if a.len() != b.len() {
        return false;
    }
    let mut i: usize = 0;
    while i < a.len()
        invariant
            a@.len() == b@.len(),
            i <= a@.len(),
            forall|j: int| 0 <= j < i ==> a@[j] == b@[j],
        decreases a@.len() - i,
    {
        if a[i] != b[i] {
            return false;
        }
        i = i + 1;
    }
    assert(a@ =~= b@);
    true
}

/// Whether two strings hold the same characters.
pub fn str_eq(a: &str, b: &str) -> (r: bool)
    ensures
        r == (a@ == b@),
{
    let x = chars_of(a);
    let y = chars_of(b);
    chars_eq(&x, &y)
}

/// Whether `needle` occurs in `s` at index `i`.
pub open spec fn occurs_at(s: Seq<char>, needle: Seq<char>, i: int) -> bool {
    0 <= i && i + needle.len() <= s.len() && s.subrange(i, i + needle.len()) == needle
}

/// Whether `needle` occurs anywhere in `s`, as `str::contains` tells.
pub open spec fn contains_seq(s: Seq<char>, needle: Seq<char>) -> bool {
    exists|i: int| occurs_at(s, needle, i)
}

/// Whether `needle` occurs in `s` at index `i`.
pub fn chars_occur_at(s: &[char], needle: &[char], i: usize) -> (r: bool)
    ensures
        r == occurs_at(s@, needle@, i as int),
{
    if i > s.len() || needle.len() > s.len() - i {
        return false;
    }
    let n = s.len();
    let mut j: usize = 0;
    while j < needle.len()
        invariant
            n == s@.len(),
            i + needle@.len() <= s@.len(),
            j <= needle@.len(),
            forall|t: int| 0 <= t < j ==> s@[i + t] == needle@[t],
        decreases needle@.len() - j,
    {
        if s[i + j] != needle[j] {
            assert(s@.subrange(i as int, i + needle@.len())[j as int] != needle@[j as int]);
            return false;
        }
        j = j + 1;
    }
    assert(s@.subrange(i as int, i + needle@.len()) =~= needle@);
    true
}

/// `str::contains` on character slices.
pub fn chars_contain(s: &[char], needle: &[char]) -> (r: bool)
    ensures
        r == contains_seq(s@, needle@),
{
    let n = s.len();
    let mut i: usize = 0;
    loop
        invariant
            n == s@.len(),
            i <= n,
            forall|t: int| 0 <= t < i ==> !occurs_at(s@, needle@, t),
        ensures
            forall|t: int| 0 <= t <= n ==> !occurs_at(s@, needle@, t),
        decreases n - i,
    {
        if chars_occur_at(s, needle, i) {
            return true;
        }
        if i == n {
            break;
        }
        i = i + 1;
    }
    assert forall|t: int| !occurs_at(s@, needle@, t) by {
        if 0 <= t && t <= n {
        }
    }
    false
}

/// `str::contains` on strings.
pub fn str_contains(s: &str, needle: &str) -> (r: bool)
    ensures
        r == contains_seq(s@, needle@),
{
    let a = chars_of(s);
    let b = chars_of(needle);
    chars_contain(&a, &b)
}

/// The concatenation of two strings.
pub fn concat_str(a: &str, b: &str) -> (r: String)
    ensures
        r@ == a@ + b@,
{
    let mut r = String::from_str(a);
    r.append(b);
    r
}

} // verus!

verus! {

/// The number of bytes of the UTF-8 encoding of `s` (what `str::len` gives).
pub open spec fn byte_len(s: Seq<char>) -> nat {
    vstd::utf8::encode_utf8(s).len()
}

/// `n` copies of `c`.
pub open spec fn repeated(c: char, n: nat) -> Seq<char> {
    Seq::new(n, |_i: int| c)
}

/// A string of `n` copies of `c` (what `str::repeat` gives for a
/// one-character string).
pub fn repeat_char(c: char, n: usize) -> (r: String)
    ensures
        r@ == repeated(c, n as nat),
{
    let mut r = String::new();
    let mut i: usize = 0;
    while i < n
        invariant
            i <= n,
            r@ == repeated(c, i as nat),
        decreases n - i,
    {
        push_char(&mut r, c);
        i = i + 1;
        assert(r@ =~= repeated(c, i as nat));
    }
    r
}

/// The number of bytes of `s` (a string's byte length always fits in a
/// `usize`).
pub fn str_byte_len(s: &str) -> (r: usize)
    ensures
        r == byte_len(s@) as usize,
{
    s.len()
}

/// `s` with `c` inserted before index `i`.
pub open spec fn insert_char(s: Seq<char>, i: int, c: char) -> Seq<char> {
    s.subrange(0, i).push(c) + s.subrange(i, s.len() as int)
}

/// `s` without the character at index `i`.
pub open spec fn remove_char(s: Seq<char>, i: int) -> Seq<char> {
    s.subrange(0, i) + s.subrange(i + 1, s.len() as int)
}

/// `s` with `t` inserted before index `i`.
pub open spec fn insert_seq(s: Seq<char>, i: int, t: Seq<char>) -> Seq<char> {
    s.subrange(0, i) + t + s.subrange(i, s.len() as int)
}

/// The string `s` with `c` inserted before character index `i`.
pub fn string_insert_char(s: &String, i: usize, c: char) -> (r: String)
    requires
        i <= s@.len(),
    ensures
        r@ == insert_char(s@, i as int, c),
{
    let mut cs = chars_of(s.as_str());
    cs.insert(i, c);
    assert(cs@ =~= insert_char(s@, i as int, c));
    string_of(&cs)
}

/// The string `s` without the character at index `i`.
pub fn string_remove_char(s: &String, i: usize) -> (r: String)
    requires
        i < s@.len(),
    ensures
        r@ == remove_char(s@, i as int),
{
    let mut cs = chars_of(s.as_str());
    cs.remove(i);
    assert(cs@ =~= remove_char(s@, i as int));
    string_of(&cs)
}

/// The string `s` with `t` inserted before character index `i`.
pub fn string_insert_str(s: &String, i: usize, t: &str) -> (r: String)
    requires
        i <= s@.len(),
    ensures
        r@ == insert_seq(s@, i as int, t@),
{
    let cs = chars_of(s.as_str());
    let n = cs.len();
    let head = sub_chars(&cs, 0, i);
    let tail = sub_chars(&cs, i, n);
    let mut r = string_of(&head);
    r.append(t);
    let rest = string_of(&tail);
    r.append(rest.as_str());
    r
}

/// The number of characters of a string.
pub fn char_count(s: &String) -> (r: usize)
    ensures
        r == s@.len(),
{
    s.as_str().unicode_len()
}

} // verus!

verus! {

/// The character of a decimal digit.
pub open spec fn digit_char(d: nat) -> char {
    if d == 0 { '0' }
    else if d == 1 { '1' }
    else if d == 2 { '2' }
    else if d == 3 { '3' }
    else if d == 4 { '4' }
    else if d == 5 { '5' }
    else if d == 6 { '6' }
    else if d == 7 { '7' }
    else if d == 8 { '8' }
    else { '9' }
}

/// The decimal digits of `n`, without leading zeros (what `Display` gives
/// for an unsigned integer).
pub open spec fn decimal(n: nat) -> Seq<char>
    decreases n,
{
    if n < 10 {
        seq![digit_char(n)]
    } else {
        decimal(n / 10).push(digit_char(n % 10))
    }
}

fn digit_to_char(d: u64) -> (c: char)
    requires
        d < 10,
    ensures
        c == digit_char(d as nat),
{
    if d == 0 { '0' }
    else if d == 1 { '1' }
    else if d == 2 { '2' }
    else if d == 3 { '3' }
    else if d == 4 { '4' }
    else if d == 5 { '5' }
    else if d == 6 { '6' }
    else if d == 7 { '7' }
    else if d == 8 { '8' }
    else { '9' }
}

/// The decimal form of `n`.
pub fn u64_to_decimal(n: u64) -> (s: String)
    ensures
        s@ == decimal(n as nat),
    decreases n,
{
    if n < 10 {
        let mut s = String::new();
        push_char(&mut s, digit_to_char(n));
        assert(s@ =~= decimal(n as nat));
        s
    } else {
        let mut s = u64_to_decimal(n / 10);
        push_char(&mut s, digit_to_char(n % 10));
        s
    }
}

/// `s` followed by `c`.
pub fn with_char(s: String, c: char) -> (r: String)
    ensures
        r@ == s@.push(c),
{
    let mut r = s;
    push_char(&mut r, c);
    r
}

/// A character in ASCII lower case.
pub open spec fn lower_char(c: char) -> char {
    if 'A' <= c && c <= 'Z' {
        ((c as u32) + 32) as char
    } else {
        c
    }
}

/// A text in ASCII lower case.
pub open spec fn ascii_lower(s: Seq<char>) -> Seq<char> {
    Seq::new(s.len(), |i: int| lower_char(s[i]))
}

/// A character in ASCII lower case.
pub fn lower_ascii(c: char) -> (r: char)
    ensures
        r == lower_char(c),
{
    if 'A' <= c && c <= 'Z' {
        let v: u8 = (c as u8) + 32;
        v as char
    } else {
        c
    }
}

/// `str::to_ascii_lowercase`.
pub fn ascii_lower_str(s: &str) -> (r: String)
    ensures
        r@ == ascii_lower(s@),
{
    let cs = chars_of(s);
    let mut out: Vec<char> = Vec::new();
    let mut i: usize = 0;
    while i < cs.len()
        invariant
            i <= cs@.len(),
            out@ == ascii_lower(cs@.subrange(0, i as int)),
        decreases cs@.len() - i,
    {
        out.push(lower_ascii(cs[i]));
        i = i + 1;
        assert(out@ =~= ascii_lower(cs@.subrange(0, i as int)));
    }
    assert(cs@.subrange(0, cs@.len() as int) =~= cs@);
    string_of(&out)
}

/// The index of the first line feed of `s`, or its length.
pub open spec fn newline_index(s: Seq<char>) -> nat
    decreases s.len(),
{
    if s.len() == 0 || s[0] == '\n' {
        0
    } else {
        1 + newline_index(s.drop_first())
    }
}

/// A line without the carriage return of a `\r\n` ending.
pub open spec fn strip_cr(raw: Seq<char>) -> Seq<char> {
    if raw.len() > 0 && raw.last() == '\r' {
        raw.drop_last()
    } else {
        raw
    }
}

pub proof fn lemma_newline_index(s: Seq<char>, k: int)
    requires
        0 <= k <= s.len(),
        forall|j: int| 0 <= j < k ==> #[trigger] s[j] != '\n',
        k == s.len() || s[k] == '\n',
    ensures
        newline_index(s) == k,
    decreases k,
{
    if k > 0 {
        let t = s.drop_first();
        assert forall|j: int| 0 <= j < k - 1 implies #[trigger] t[j] != '\n' by {
            assert(t[j] == s[j + 1]);
        }
        lemma_newline_index(t, k - 1);
    }
}

/// The lines of a text, as `str::lines` gives them: split at line feeds,
/// a `\r` before a line feed dropped, no empty line after a final feed.
pub open spec fn lines_of(s: Seq<char>) -> Seq<Seq<char>>
    decreases s.len(),
{
    if s.len() == 0 {
        Seq::empty()
    } else {
        let k = newline_index(s);
        if k < s.len() {
            seq![strip_cr(s.subrange(0, k as int))] + lines_of(s.subrange(k as int + 1, s.len() as int))
        } else {
            seq![s]
        }
    }
}

/// The views of a sequence of strings.
pub open spec fn string_views(v: Seq<String>) -> Seq<Seq<char>> {
    v.map_values(|s: String| s@)
}

/// The lines of a text (`str::lines`).
pub fn split_lines(text: &str) -> (r: Vec<String>)
    ensures
        string_views(r@) == lines_of(text@),
{
    let s = chars_of(text);
    let n = s.len();
    let mut out: Vec<String> = Vec::new();
    let mut start: usize = 0;
    assert(s@.subrange(0, n as int) =~= s@);
    assert(string_views(out@) =~= Seq::<Seq<char>>::empty());
    while start < n
        invariant
            start <= n,
            n == s@.len(),
            s@ == text@,
            string_views(out@) + lines_of(s@.subrange(start as int, n as int)) == lines_of(s@),
        decreases n - start,
    {
        let ghost t = s@.subrange(start as int, n as int);
        let mut j = start;
        while j < n && s[j] != '\n'
            invariant
                start <= j <= n,
                n == s@.len(),
                forall|q: int| start <= q < j ==> #[trigger] s@[q] != '\n',
            decreases n - j,
        {
            j = j + 1;
        }
        proof {
            assert forall|q: int| 0 <= q < j - start implies #[trigger] t[q] != '\n' by {
                assert(t[q] == s@[start + q]);
            }
            lemma_newline_index(t, j - start);
        }
        let mut end = j;
        if j < n && end > start && s[end - 1] == '\r' {
            end = end - 1;
        }
        let line = sub_chars(&s, start, end);
        let ghost before = string_views(out@);
        out.push(string_of(&line));
        assert(string_views(out@) =~= before.push(line@));
        if j == n {
            assert(line@ =~= t);
            assert(lines_of(t) == seq![t]);
            assert(lines_of(s@.subrange(n as int, n as int)) =~= Seq::<Seq<char>>::empty());
            assert(string_views(out@) + Seq::<Seq<char>>::empty() =~= string_views(out@));
            assert(before + seq![t] =~= before.push(t));
            start = n;
        } else {
            assert(t.subrange(0, (j - start) as int) =~= s@.subrange(start as int, j as int));
            assert(line@ =~= strip_cr(t.subrange(0, (j - start) as int)));
            assert(t.subrange((j - start) + 1, t.len() as int) =~= s@.subrange(j + 1, n as int));
            assert(before + (seq![line@] + lines_of(s@.subrange(j + 1, n as int))) =~= before.push(line@) + lines_of(
                s@.subrange(j + 1, n as int),
            ));
            start = j + 1;
        }
    }
    assert(lines_of(s@.subrange(n as int, n as int)) =~= Seq::<Seq<char>>::empty());
    assert(string_views(out@) + Seq::<Seq<char>>::empty() =~= string_views(out@));
    out
}

} // verus!
