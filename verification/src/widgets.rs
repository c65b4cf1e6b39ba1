//! The text of small interface pieces: buttons, a text with its caret
//! marked, masked secrets, endpoint status labels and the logo art.

use vstd::prelude::*;
use crate::navigation::HostConnectionStatus;
use crate::text::{
    byte_len, chars_of, concat_str, lines_of, repeat_char, repeated, split_lines, str_byte_len,
    string_of, string_views, sub_chars,
};

verus! {

/// How a button is written: `[ label ]` when selected, `  label  ` when not.
pub open spec fn button_spec(label: Seq<char>, is_selected: bool) -> Seq<char> {
    if is_selected {
        "[ "@ + label + " ]"@
    } else {
        "  "@ + label + "  "@
    }
}

/// The text of a button.
pub fn button(label: &str, is_selected: bool) -> (r: String)
    ensures
        r@ == button_spec(label@, is_selected),
{
    if is_selected {
        let a = concat_str("[ ", label);
        concat_str(a.as_str(), " ]")
    } else {
        let a = concat_str("  ", label);
        concat_str(a.as_str(), "  ")
    }
}

/// A text split around its caret: the characters before it, the one under
/// it (a space past the end), and the characters after that one.
pub struct CaretParts {
    pub before: String,
    pub current: char,
    pub after: String,
}

/// The caret brought within the text.
pub open spec fn safe_caret(text: Seq<char>, caret: usize) -> int {
    if caret as int <= text.len() {
        caret as int
    } else {
        text.len() as int
    }
}

/// Splits a text around its caret (a character index, brought within the
/// text), as an entry shows it with the character under the caret marked.
pub fn caret_parts(text: &str, caret: usize) -> (r: CaretParts)
    ensures
        r.before@ == text@.subrange(0, safe_caret(text@, caret)),
        safe_caret(text@, caret) < text@.len() ==> r.current == text@[safe_caret(text@, caret)] && r.after@
            == text@.subrange(safe_caret(text@, caret) + 1, text@.len() as int),
        safe_caret(text@, caret) == text@.len() ==> r.current == ' ' && r.after@.len() == 0,
{
    let cs = chars_of(text);
    let n = cs.len();
    let at = if caret <= n { caret } else { n };
    let before = string_of(&sub_chars(&cs, 0, at));
    if at < n {
        CaretParts { before, current: cs[at], after: string_of(&sub_chars(&cs, at + 1, n)) }
    } else {
        CaretParts { before, current: ' ', after: String::new() }
    }
}

/// A secret as shown: one `*` per byte of it.
pub fn mask(value: &str) -> (r: String)
    ensures
        r@ == repeated('*', (byte_len(value@) as usize) as nat),
{
    let n = str_byte_len(value);
    repeat_char('*', n)
}

/// How the host list names an endpoint's status: in full when the host
/// has one endpoint, by a letter when it has several.
pub open spec fn status_label_spec(status: HostConnectionStatus, single_endpoint: bool) -> Seq<char> {
    match status {
        HostConnectionStatus::Reachable => if single_endpoint { "Reachable"@ } else { "G"@ },
        HostConnectionStatus::Unreachable => if single_endpoint { "Unreachable"@ } else { "R"@ },
        _ => if single_endpoint { "Unknown"@ } else { "?"@ },
    }
}

/// The label of an endpoint's status.
pub fn status_label(status: HostConnectionStatus, single_endpoint: bool) -> (r: &'static str)
    ensures
        r@ == status_label_spec(status, single_endpoint),
{
    match status {
        HostConnectionStatus::Reachable => if single_endpoint { "Reachable" } else { "G" },
        HostConnectionStatus::Unreachable => if single_endpoint { "Unreachable" } else { "R" },
        _ => if single_endpoint { "Unknown" } else { "?" },
    }
}

/// A piece of logo art: the column where its second colour starts, its
/// lines, and the width of its widest line.
pub struct ParsedLogo {
    pub split_col: usize,
    pub lines: Vec<String>,
    pub width: usize,
}

impl ParsedLogo {
    /// The number of lines of the art.
    pub fn height(&self) -> (r: usize)
        ensures
            r == self.lines@.len(),
    {
        self.lines.len()
    }
}

/// The red, green and blue parts of a colour written `0xRRGGBB`.
pub fn rgb_of(hex: u32) -> (r: (u8, u8, u8))
    ensures
        r.0 == (hex >> 16u32) & 0xFF,
        r.1 == (hex >> 8u32) & 0xFF,
        r.2 == hex & 0xFF,
{
    let red = (hex >> 16u32) & 0xFF;
    let green = (hex >> 8u32) & 0xFF;
    let blue = hex & 0xFF;
    assert(red <= 0xFF && green <= 0xFF && blue <= 0xFF) by (bit_vector)
        requires
            red == (hex >> 16u32) & 0xFF,
            green == (hex >> 8u32) & 0xFF,
            blue == hex & 0xFF,
    ;
    (red as u8, green as u8, blue as u8)
}

/// The index of the first `'0'` in `s`, or 0.
pub open spec fn marker_column(s: Seq<char>) -> int {
    if exists|i: int| 0 <= i < s.len() && s[i] == '0' {
        choose|i: int| 0 <= i < s.len() && s[i] == '0' && forall|j: int| 0 <= j < i ==> s[j] != '0'
    } else {
        0
    }
}

/// The length of the longest of `lines` (0 when there are none).
pub open spec fn max_len(lines: Seq<Seq<char>>) -> nat
    decreases lines.len(),
{
    if lines.len() == 0 {
        0
    } else {
        let rest = max_len(lines.drop_last());
        if lines.last().len() > rest { lines.last().len() } else { rest }
    }
}

/// Reads logo art: its first line marks with a `0` the column where the
/// second colour starts; the other lines are the art.
pub fn parse_logo(raw: &str) -> (r: ParsedLogo)
    ensures
        lines_of(raw@).len() == 0 ==> r.split_col == 0 && r.lines@.len() == 0 && r.width == 0,
        lines_of(raw@).len() > 0 ==> {
            &&& r.split_col == marker_column(lines_of(raw@)[0])
            &&& string_views(r.lines@) == lines_of(raw@).drop_first()
            &&& r.width == max_len(lines_of(raw@).drop_first())
        },
{
    let all = split_lines(raw);
    let n = all.len();
    if n == 0 {
        return ParsedLogo { split_col: 0, lines: Vec::new(), width: 0 };
    }
    let marker = chars_of(all[0].as_str());
    assert(marker@ == string_views(all@)[0]);
    let mut k: usize = 0;
    while k < marker.len() && marker[k] != '0'
        invariant
            k <= marker@.len(),
            forall|j: int| 0 <= j < k ==> marker@[j] != '0',
        decreases marker@.len() - k,
    {
        k = k + 1;
    }
    let split_col = if k < marker.len() { k } else { 0 };
    proof {
        if k < marker@.len() {
            let c = choose|i: int| 0 <= i < marker@.len() && marker@[i] == '0' && forall|j: int| 0 <= j < i ==> marker@[j] != '0';
            assert(0 <= k < marker@.len() && marker@[k as int] == '0' && forall|j: int| 0 <= j < k ==> marker@[j] != '0');
            if c < k {
            } else if c > k {
                assert(marker@[k as int] != '0');
            }
        }
    }
    let mut lines: Vec<String> = Vec::new();
    let mut width: usize = 0;
    let mut i: usize = 1;
    while i < n
        invariant
            1 <= i <= n,
            n == all@.len(),
            string_views(lines@) == string_views(all@).subrange(1, i as int),
            width == max_len(string_views(all@).subrange(1, i as int)),
        decreases n - i,
    {
        let line = all[i].clone();
        let len = line.as_str().unicode_len();
        let ghost prev = string_views(all@).subrange(1, i as int);
        let ghost next = string_views(all@).subrange(1, i + 1);
        assert(next.drop_last() =~= prev);
        assert(next.last() == all@[i as int]@);
        if len > width {
            width = len;
        }
        lines.push(line);
        assert(string_views(lines@) =~= next);
        i = i + 1;
    }
    assert(string_views(all@).subrange(1, n as int) =~= string_views(all@).drop_first());
    ParsedLogo { split_col, lines, width }
}

/// The first `n` characters of `s` (all of them when it is shorter).
pub open spec fn take_spec(s: Seq<char>, n: usize) -> Seq<char> {
    if n as int <= s.len() { s.subrange(0, n as int) } else { s }
}

/// The characters of `s` after the first `n` (none when it is shorter).
pub open spec fn skip_spec(s: Seq<char>, n: usize) -> Seq<char> {
    if n as int <= s.len() { s.subrange(n as int, s.len() as int) } else { Seq::empty() }
}

/// The first `n` characters of `s`.
pub fn take_chars(s: &str, n: usize) -> (r: String)
    ensures
        r@ == take_spec(s@, n),
{
    let cs = chars_of(s);
    let k = if n <= cs.len() { n } else { cs.len() };
    let r = sub_chars(&cs, 0, k);
    assert(k == cs@.len() ==> r@ =~= cs@);
    string_of(&r)
}

/// The characters of `s` after the first `n`.
pub fn skip_chars(s: &str, n: usize) -> (r: String)
    ensures
        r@ == skip_spec(s@, n),
{
    let cs = chars_of(s);
    let k = if n <= cs.len() { n } else { cs.len() };
    let r = sub_chars(&cs, k, cs.len());
    string_of(&r)
}

/// A line of logo art cut at the colour column and kept within
/// `max_chars` characters: the part before the column, then what fits of
/// the part after it.
pub open spec fn split_with_width_spec(line: Seq<char>, split_col: usize, max_chars: usize) -> (Seq<char>, Seq<char>) {
    let left = take_spec(line, split_col);
    let right = skip_spec(line, split_col);
    if max_chars as int <= left.len() {
        (take_spec(left, max_chars), Seq::empty())
    } else {
        (left, take_spec(right, (max_chars - left.len()) as usize))
    }
}

/// Cuts a line of logo art into its two colours within `max_chars`.
pub fn split_with_width(line: &str, split_col: usize, max_chars: usize) -> (r: (String, String))
    ensures
        (r.0@, r.1@) == split_with_width_spec(line@, split_col, max_chars),
{
    let left_full = take_chars(line, split_col);
    let right_full = skip_chars(line, split_col);
    let left_len = left_full.as_str().unicode_len();
    if max_chars <= left_len {
        return (take_chars(left_full.as_str(), max_chars), String::new());
    }
    let right_width = max_chars - left_len;
    (left_full, take_chars(right_full.as_str(), right_width))
}

/// The first logo, in order, that fits within `width` by `height`, by its
/// width and line count.
pub open spec fn first_fit(widths: Seq<usize>, heights: Seq<usize>, width: usize, height: usize) -> Option<int>
    decreases widths.len(),
{
    if widths.len() == 0 {
        None
    } else if first_fit(widths.drop_last(), heights, width, height) is Some {
        first_fit(widths.drop_last(), heights, width, height)
    } else if widths.last() <= width && heights[widths.len() - 1] <= height {
        Some(widths.len() - 1)
    } else {
        None
    }
}

/// Picks the largest logo that fits: the first, in order, whose width and
/// height fit the space.
pub fn pick_logo(widths: &[usize], heights: &[usize], width: usize, height: usize) -> (r: Option<usize>)
    requires
        widths@.len() == heights@.len(),
    ensures
        match r {
            Some(i) => first_fit(widths@, heights@, width, height) == Some(i as int),
            None => first_fit(widths@, heights@, width, height) is None,
        },
{
    let mut i: usize = 0;
    while i < widths.len()
        invariant
            i <= widths@.len(),
            widths@.len() == heights@.len(),
            first_fit(widths@.subrange(0, i as int), heights@, width, height) is None,
        decreases widths@.len() - i,
    {
        let ghost pre = widths@.subrange(0, i + 1);
        assert(pre.drop_last() =~= widths@.subrange(0, i as int));
        if widths[i] <= width && heights[i] <= height {
            proof {
                lemma_first_fit_prefix(widths@, heights@, width, height, i as int + 1);
            }
            return Some(i);
        }
        i = i + 1;
    }
    assert(widths@.subrange(0, widths@.len() as int) =~= widths@);
    None
}

proof fn lemma_first_fit_prefix(widths: Seq<usize>, heights: Seq<usize>, width: usize, height: usize, k: int)
    requires
        0 < k <= widths.len(),
        first_fit(widths.subrange(0, k), heights, width, height) is Some,
    ensures
        first_fit(widths, heights, width, height) == first_fit(widths.subrange(0, k), heights, width, height),
    decreases widths.len() - k,
{
    if k < widths.len() {
        let next = widths.subrange(0, k + 1);
        assert(next.drop_last() =~= widths.subrange(0, k));
        lemma_first_fit_prefix(widths, heights, width, height, k + 1);
    } else {
        assert(widths.subrange(0, k) =~= widths);
    }
}

} // verus!
