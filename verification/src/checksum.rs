//! Checking a downloaded release archive against the release's checksum
//! list (lines of `<sha256 hex> <file name>`, the name optionally marked
//! with `*`), and recognising a gzip archive.

use vstd::prelude::*;
use sha2::Digest;
use crate::text::{
    ascii_lower, char_is_ws, chars_eq, chars_of, concat_str, is_ws, lower_ascii, string_of, sub_chars,
    trim_bounds, trim_start, newline_index, strip_cr, lemma_newline_index,
};

verus! {

/// The length of the run of non-whitespace characters that starts `s`.
pub open spec fn word_len(s: Seq<char>) -> nat
    decreases s.len(),
{
    if s.len() > 0 && !is_ws(s[0]) {
        1 + word_len(s.drop_first())
    } else {
        0
    }
}

/// The first whitespace-separated word of `s` that starts it (empty when
/// `s` starts with whitespace or is empty).
pub open spec fn first_word(s: Seq<char>) -> Seq<char> {
    s.subrange(0, word_len(s) as int)
}

/// `s` after its first word.
pub open spec fn after_first_word(s: Seq<char>) -> Seq<char> {
    s.subrange(word_len(s) as int, s.len() as int)
}

/// `s` without its leading `*` characters.
pub open spec fn trim_stars(s: Seq<char>) -> Seq<char>
    decreases s.len(),
{
    if s.len() > 0 && s[0] == '*' {
        trim_stars(s.drop_first())
    } else {
        s
    }
}

/// The checksum a line gives for `name`: its first word, in lower case,
/// when its second word (without leading `*`) is `name`.
pub open spec fn line_checksum(line: Seq<char>, name: Seq<char>) -> Option<Seq<char>> {
    let t1 = trim_start(line);
    let hash = first_word(t1);
    let t2 = trim_start(after_first_word(t1));
    let file = first_word(t2);
    if hash.len() == 0 || file.len() == 0 {
        None
    } else if trim_stars(file) == name {
        Some(ascii_lower(hash))
    } else {
        None
    }
}

/// The checksum that the first fitting line of `text` (split as
/// `str::lines` splits) gives for `name`.
pub open spec fn expected_checksum_spec(text: Seq<char>, name: Seq<char>) -> Option<Seq<char>>
    decreases text.len(),
{
    if text.len() == 0 {
        None
    } else {
        let k = newline_index(text);
        if k < text.len() {
            match line_checksum(strip_cr(text.subrange(0, k as int)), name) {
                Some(h) => Some(h),
                None => expected_checksum_spec(text.subrange(k as int + 1, text.len() as int), name),
            }
        } else {
            line_checksum(text, name)
        }
    }
}

proof fn lemma_word_len(s: Seq<char>, k: int)
    requires
        0 <= k <= s.len(),
        forall|j: int| 0 <= j < k ==> !is_ws(#[trigger] s[j]),
        k == s.len() || is_ws(s[k]),
    ensures
        word_len(s) == k,
    decreases k,
{
    if k > 0 {
        let t = s.drop_first();
        assert forall|j: int| 0 <= j < k - 1 implies !is_ws(#[trigger] t[j]) by {
            assert(t[j] == s[j + 1]);
        }
        lemma_word_len(t, k - 1);
    }
}

proof fn lemma_trim_stars_step(s: Seq<char>, i: int)
    requires
        0 <= i < s.len(),
        s[i] == '*',
    ensures
        trim_stars(s.subrange(i, s.len() as int)) == trim_stars(s.subrange(i + 1, s.len() as int)),
{
    let t = s.subrange(i, s.len() as int);
    assert(t.drop_first() =~= s.subrange(i + 1, s.len() as int));
}

/// The end of the word that starts at `start` in `s`.
fn word_end(s: &[char], start: usize) -> (k: usize)
    requires
        start <= s@.len(),
    ensures
        start <= k <= s@.len(),
        word_len(s@.subrange(start as int, s@.len() as int)) == k - start,
{
    let n = s.len();
    let mut k = start;
    while k < n && !char_is_ws(s[k])
        invariant
            start <= k <= n,
            n == s@.len(),
            forall|j: int| start <= j < k ==> !is_ws(#[trigger] s@[j]),
        decreases n - k,
    {
        k = k + 1;
    }
    proof {
        let t = s@.subrange(start as int, n as int);
        assert forall|j: int| 0 <= j < k - start implies !is_ws(#[trigger] t[j]) by {
            assert(t[j] == s@[start + j]);
        }
        lemma_word_len(t, k - start);
    }
    k
}

/// `s` without its leading `*` characters.
fn strip_stars(s: &[char]) -> (r: Vec<char>)
    ensures
        r@ == trim_stars(s@),
{
    let n = s.len();
    let mut a: usize = 0;
    assert(s@.subrange(0, n as int) =~= s@);
    while a < n && s[a] == '*'
        invariant
            a <= n,
            n == s@.len(),
            trim_stars(s@) == trim_stars(s@.subrange(a as int, n as int)),
        decreases n - a,
    {
        proof {
            lemma_trim_stars_step(s@, a as int);
        }
        a = a + 1;
    }
    let r = sub_chars(s, a, n);
    r
}

/// The checksum a line gives for `name`, if it is the line for `name`.
fn checksum_of_line(line: &[char], name: &[char]) -> (r: Option<Vec<char>>)
    ensures
        match line_checksum(line@, name@) {
            Some(h) => r matches Some(x) && x@ == h,
            None => r is None,
        },
{
    let n = line.len();
    let (a, _b) = trim_bounds(line);
    let ghost t1 = line@.subrange(a as int, n as int);
    let e1 = word_end(line, a);
    assert(line@.subrange(a as int, n as int).subrange(0, (e1 - a) as int) =~= line@.subrange(a as int, e1 as int));
    let rest = sub_chars(line, e1, n);
    assert(rest@ =~= t1.subrange(word_len(t1) as int, t1.len() as int));
    let (c, _d) = trim_bounds(&rest);
    let m = rest.len();
    let e2 = word_end(&rest, c);
    assert(rest@.subrange(c as int, m as int).subrange(0, (e2 - c) as int) =~= rest@.subrange(c as int, e2 as int));
    if e1 == a || e2 == c {
        return None;
    }
    let file = sub_chars(&rest, c, e2);
    let stripped = strip_stars(&file);
    if !chars_eq(&stripped, name) {
        return None;
    }
    let mut hash: Vec<char> = Vec::new();
    let mut i = a;
    while i < e1
        invariant
            a <= i <= e1 <= n,
            n == line@.len(),
            hash@ == ascii_lower(line@.subrange(a as int, i as int)),
        decreases e1 - i,
    {
        hash.push(lower_ascii(line[i]));
        i = i + 1;
        assert(hash@ =~= ascii_lower(line@.subrange(a as int, i as int)));
    }
    Some(hash)
}

/// The checksum that `checksum_text` lists for the file `asset_name`: the
/// first word, in lower case, of the first line whose second word (without
/// a leading `*`) is that name.
pub fn expected_checksum(checksum_text: &str, asset_name: &str) -> (r: Option<String>)
    ensures
        match expected_checksum_spec(checksum_text@, asset_name@) {
            Some(h) => r matches Some(x) && x@ == h,
            None => r is None,
        },
{
    let s = chars_of(checksum_text);
    let name = chars_of(asset_name);
    let n = s.len();
    let mut start: usize = 0;
    assert(s@.subrange(0, n as int) =~= s@);
    while start < n
        invariant
            start <= n,
            n == s@.len(),
            name@ == asset_name@,
            s@ == checksum_text@,
            expected_checksum_spec(s@, name@) == expected_checksum_spec(s@.subrange(start as int, n as int), name@),
        decreases n - start,
    {
        let ghost t = s@.subrange(start as int, n as int);
        let mut j = start;
        while j < n && s[j] != '\n'
            invariant
                start <= j <= n,
                n == s@.len(),
                forall|q: int| start <= q < j ==> #[trigger] s@[q] != '\n',
            decreases n - j,
        {
            j = j + 1;
        }
        proof {
            assert forall|q: int| 0 <= q < j - start implies #[trigger] t[q] != '\n' by {
                assert(t[q] == s@[start + q]);
            }
            lemma_newline_index(t, j - start);
        }
        let mut end = j;
        if j < n && end > start && s[end - 1] == '\r' {
            end = end - 1;
        }
        let line = sub_chars(&s, start, end);
        proof {
            if j < n {
                assert(t.subrange(0, (j - start) as int) =~= s@.subrange(start as int, j as int));
                assert(line@ =~= strip_cr(t.subrange(0, (j - start) as int)));
            } else {
                assert(line@ =~= t);
            }
        }
        match checksum_of_line(&line, &name) {
            Some(h) => {
                return Some(string_of(&h));
            },
            None => {},
        }
        if j == n {
            return None;
        }
        assert(t.subrange((j - start) + 1, t.len() as int) =~= s@.subrange(j + 1, n as int));
        start = j + 1;
    }
    assert(s@.subrange(n as int, n as int).len() == 0);
    None
}

/// The lower-case hexadecimal digit for `d < 16`.
pub open spec fn hex_char(d: u8) -> char {
    if d < 10 {
        ((48 + d) as u32) as char
    } else {
        ((87 + d) as u32) as char
    }
}

/// Bytes as lower-case hexadecimal text, two digits per byte.
pub open spec fn hex_text(b: Seq<u8>) -> Seq<char>
    decreases b.len(),
{
    if b.len() == 0 {
        Seq::empty()
    } else {
        hex_text(b.drop_last()) + seq![hex_char(b.last() / 16), hex_char(b.last() % 16)]
    }
}

fn hex_digit(d: u8) -> (c: char)
    requires
        d < 16,
    ensures
        c == hex_char(d),
{
    if d < 10 {
        let v: u8 = 48 + d;
        v as char
    } else {
        let v: u8 = 87 + d;
        v as char
    }
}

/// Bytes as lower-case hexadecimal text.
pub fn hex_lower(bytes: &[u8]) -> (r: String)
    ensures
        r@ == hex_text(bytes@),
{
    let mut cs: Vec<char> = Vec::new();
    let mut i: usize = 0;
    assert(bytes@.subrange(0, 0) =~= Seq::<u8>::empty());
    while i < bytes.len()
        invariant
            i <= bytes@.len(),
            cs@ == hex_text(bytes@.subrange(0, i as int)),
        decreases bytes@.len() - i,
    {
        let b = bytes[i];
        cs.push(hex_digit(b / 16));
        cs.push(hex_digit(b % 16));
        proof {
            let p = bytes@.subrange(0, i + 1);
            assert(p.drop_last() =~= bytes@.subrange(0, i as int));
            assert(p.last() == b);
        }
        i = i + 1;
        assert(cs@ =~= hex_text(bytes@.subrange(0, i as int)));
    }
    assert(bytes@.subrange(0, bytes@.len() as int) =~= bytes@);
    string_of(&cs)
}

/// The SHA-256 digest of some bytes, as `sha2::Sha256` computes it.
pub uninterp spec fn sha256_of(data: Seq<u8>) -> Seq<u8>;

/// Hashes bytes with `sha2::Sha256::digest`; the digest is the named value
/// and, as for every SHA-256 digest, 32 bytes long.
#[verifier::external_body]
fn sha256_digest(data: &[u8]) -> (r: Vec<u8>)
    ensures
        r@ == sha256_of(data@),
        r@.len() == 32,
{
    sha2::Sha256::digest(data).to_vec()
}

/// The SHA-256 digest of `data` as lower-case hexadecimal text.
pub fn sha256_hex(data: &[u8]) -> (r: String)
    ensures
        r@ == hex_text(sha256_of(data@)),
        r@.len() == 64,
{
    let digest = sha256_digest(data);
    let r = hex_lower(digest.as_slice());
    proof {
        lemma_hex_len(digest@);
    }
    r
}

proof fn lemma_hex_len(b: Seq<u8>)
    ensures
        hex_text(b).len() == 2 * b.len(),
    decreases b.len(),
{
    if b.len() > 0 {
        lemma_hex_len(b.drop_last());
    }
}

/// The error given when the checksum list has no line for the archive.
pub open spec fn missing_entry_error(name: Seq<char>) -> Seq<char> {
    "no checksum entry for asset "@ + name
}

/// The error given when the archive's digest is not the listed one.
pub open spec fn mismatch_error(name: Seq<char>, expected: Seq<char>, got: Seq<char>) -> Seq<char> {
    "checksum mismatch for "@ + name + " (expected "@ + expected + ", got "@ + got + ")"@
}

/// What checking an archive with the given digest text against a checksum
/// list gives.
pub open spec fn checksum_verdict(digest_hex: Seq<char>, name: Seq<char>, checksum_text: Seq<char>) -> Result<(), Seq<char>> {
    match expected_checksum_spec(checksum_text, name) {
        None => Err(missing_entry_error(name)),
        Some(e) => if digest_hex == e {
            Ok(())
        } else {
            Err(mismatch_error(name, e, digest_hex))
        },
    }
}

/// The view of a check's result.
pub open spec fn unit_result_view(r: Result<(), String>) -> Result<(), Seq<char>> {
    match r {
        Ok(()) => Ok(()),
        Err(e) => Err(e@),
    }
}

/// Checks an archive whose SHA-256 digest, in hexadecimal, is `digest_hex`
/// against the checksum list `checksum_text`.
pub fn check_digest(digest_hex: &str, asset_name: &str, checksum_text: &str) -> (r: Result<(), String>)
    ensures
        unit_result_view(r) == checksum_verdict(digest_hex@, asset_name@, checksum_text@),
{
    let expected = match expected_checksum(checksum_text, asset_name) {
        Some(e) => e,
        None => return Err(concat_str("no checksum entry for asset ", asset_name)),
    };
    if crate::text::str_eq(digest_hex, expected.as_str()) {
        Ok(())
    } else {
        let a = concat_str("checksum mismatch for ", asset_name);
        let b = concat_str(a.as_str(), " (expected ");
        let c = concat_str(b.as_str(), expected.as_str());
        let d = concat_str(c.as_str(), ", got ");
        let e = concat_str(d.as_str(), digest_hex);
        Err(concat_str(e.as_str(), ")"))
    }
}

/// Checks the bytes of a downloaded archive against the release's checksum
/// list.
pub fn verify_archive_checksum(archive: &[u8], asset_name: &str, checksum_text: &str) -> (r: Result<(), String>)
    ensures
        unit_result_view(r) == checksum_verdict(hex_text(sha256_of(archive@)), asset_name@, checksum_text@),
{
    let digest_hex = sha256_hex(archive);
    check_digest(digest_hex.as_str(), asset_name, checksum_text)
}

/// Whether bytes start with the gzip magic number `1f 8b`.
pub open spec fn is_gzip_spec(b: Seq<u8>) -> bool {
    b.len() >= 2 && b[0] == 0x1f && b[1] == 0x8b
}

/// Whether a downloaded file starts like a gzip archive.
pub fn is_gzip(header: &[u8]) -> (r: bool)
    ensures
        r == is_gzip_spec(header@),
{
    header.len() >= 2 && header[0] == 0x1f && header[1] == 0x8b
}

} // verus!
