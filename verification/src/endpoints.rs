//! Reading the endpoint list a user types into the host form:
//! `host[:port]` items separated by commas or new lines, port 22 by default.

use vstd::prelude::*;
use crate::model::{endpoints_view, EndpointView, SshEndpoint};
use crate::text::{chars_of, string_of, sub_chars, trim, trim_chars};

verus! {

/// An ASCII decimal digit.
pub open spec fn is_digit(c: char) -> bool {
    '0' <= c && c <= '9'
}

/// Whether every character of `d` is a decimal digit.
pub open spec fn all_digits(d: Seq<char>) -> bool {
    forall|i: int| 0 <= i < d.len() ==> is_digit(#[trigger] d[i])
}

/// The number a digit stands for.
pub open spec fn digit_value(c: char) -> nat {
    (c as nat - '0' as nat) as nat
}

/// The number that the decimal digits `d` write.
pub open spec fn dec_value(d: Seq<char>) -> nat
    decreases d.len(),
{
    if d.len() == 0 {
        0
    } else {
        dec_value(d.drop_last()) * 10 + digit_value(d.last())
    }
}

/// What `str::parse::<u16>` gives: an optional `+`, then one or more decimal
/// digits whose value fits in 16 bits.
pub open spec fn parse_u16_spec(s: Seq<char>) -> Option<u16> {
    let d = if s.len() > 0 && s[0] == '+' {
        s.drop_first()
    } else {
        s
    };
    if d.len() > 0 && all_digits(d) && dec_value(d) <= 65535 {
        Some(dec_value(d) as u16)
    } else {
        None
    }
}

proof fn lemma_dec_value_grows(d: Seq<char>, i: int, j: int)
    requires
        0 <= i <= j <= d.len(),
        all_digits(d),
    ensures
        dec_value(d.subrange(0, i)) <= dec_value(d.subrange(0, j)),
    decreases j - i,
{
    if i < j {
        lemma_dec_value_grows(d, i, j - 1);
        assert(d.subrange(0, j).drop_last() =~= d.subrange(0, j - 1));
    }
}

/// `str::parse::<u16>` on the characters `s`.
pub fn parse_u16(s: &[char]) -> (r: Option<u16>)
    ensures
        r == parse_u16_spec(s@),
{
    let n = s.len();
    let start: usize = if n > 0 && s[0] == '+' { 1 } else { 0 };
    let ghost d = if s@.len() > 0 && s@[0] == '+' { s@.drop_first() } else { s@ };
    assert(d =~= s@.subrange(start as int, n as int));
    if start == n {
        return None;
    }
    let mut value: u32 = 0;
    let mut i: usize = start;
    while i < n
        invariant
            start <= i <= n,
            n == s@.len(),
            d == s@.subrange(start as int, n as int),
            d == (if s@.len() > 0 && s@[0] == '+' { s@.drop_first() } else { s@ }),
            all_digits(d.subrange(0, i - start)),
            value as nat == dec_value(d.subrange(0, i - start)),
            value <= 65535,
        decreases n - i,
    {
        let c = s[i];
        if !('0' <= c && c <= '9') {
            assert(d[i - start] == c);
            assert(!is_digit(d[i - start]));
            assert(!all_digits(d));
            return None;
        }
        let digit: u32 = (c as u32) - ('0' as u32);
        let next: u32 = value * 10 + digit;
        proof {
            let p = d.subrange(0, (i + 1 - start) as int);
            assert(p.drop_last() =~= d.subrange(0, i - start));
            assert(p.last() == c);
            assert(all_digits(p));
            assert(digit as nat == digit_value(c));
            assert(dec_value(p) == next as nat);
        }
        if next > 65535 {
            proof {
                if all_digits(d) {
                    lemma_dec_value_grows(d, (i + 1 - start) as int, d.len() as int);
                    assert(d.subrange(0, d.len() as int) =~= d);
                }
            }
            return None;
        }
        value = next;
        i = i + 1;
    }
    assert(d.subrange(0, n - start) =~= d);
    Some(value as u16)
}

/// A separator between endpoint items.
pub open spec fn is_endpoint_sep(c: char) -> bool {
    c == '\n' || c == ','
}

/// `s` cut at every separator, as `str::split` does (always one more piece
/// than there are separators).
pub open spec fn split_pieces(s: Seq<char>) -> Seq<Seq<char>>
    decreases s.len(),
{
    if s.len() == 0 {
        seq![Seq::<char>::empty()]
    } else {
        let p = split_pieces(s.drop_last());
        let c = s.last();
        if is_endpoint_sep(c) {
            p.push(Seq::<char>::empty())
        } else {
            p.update(p.len() - 1, p.last().push(c))
        }
    }
}

pub(crate) proof fn lemma_split_pieces_nonempty(s: Seq<char>)
    ensures
        split_pieces(s).len() >= 1,
    decreases s.len(),
{
    if s.len() > 0 {
        lemma_split_pieces_nonempty(s.drop_last());
    }
}

/// The views of a vector of character vectors.
pub open spec fn pieces_view(p: Seq<Vec<char>>) -> Seq<Seq<char>> {
    p.map_values(|v: Vec<char>| v@)
}

/// The pieces of `s` between separators.
pub fn split_endpoint_text(s: &[char]) -> (r: Vec<Vec<char>>)
    ensures
        pieces_view(r@) == split_pieces(s@),
{
    let mut done: Vec<Vec<char>> = Vec::new();
    let mut cur: Vec<char> = Vec::new();
    let mut i: usize = 0;
    while i < s.len()
        invariant
            i <= s@.len(),
            pieces_view(done@).push(cur@) == split_pieces(s@.subrange(0, i as int)),
        decreases s@.len() - i,
    {
        let c = s[i];
        proof {
            let t = s@.subrange(0, i as int + 1);
            assert(t.drop_last() =~= s@.subrange(0, i as int));
            assert(t.last() == c);
            lemma_split_pieces_nonempty(t.drop_last());
        }
        if c == '\n' || c == ',' {
            let finished = cur;
            cur = Vec::new();
            done.push(finished);
            assert(pieces_view(done@).push(cur@) =~= split_pieces(s@.subrange(0, i as int)).push(
                Seq::<char>::empty(),
            ));
        } else {
            let ghost before = pieces_view(done@).push(cur@);
            cur.push(c);
            assert(pieces_view(done@).push(cur@) =~= before.update(
                before.len() - 1,
                before.last().push(c),
            ));
        }
        i = i + 1;
    }
    assert(s@.subrange(0, s@.len() as int) =~= s@);
    let ghost before = pieces_view(done@).push(cur@);
    done.push(cur);
    assert(pieces_view(done@) =~= before);
    done
}

/// The index of the last `:` in `t`, if any.
pub open spec fn last_colon(t: Seq<char>) -> Option<int>
    decreases t.len(),
{
    if t.len() == 0 {
        None
    } else if t.last() == ':' {
        Some(t.len() - 1)
    } else {
        last_colon(t.drop_last())
    }
}

/// The message for an item whose port is not a port number.
pub open spec fn port_error(t: Seq<char>) -> Seq<char> {
    "Endpoint '"@ + t + "' has invalid port"@
}

/// The message for an item whose host part is blank.
pub open spec fn host_error(t: Seq<char>) -> Seq<char> {
    "Endpoint '"@ + t + "' has an empty host"@
}

/// The host part and the port (`None`: not a valid port) of a trimmed item.
pub open spec fn split_host_port(t: Seq<char>) -> (Seq<char>, Option<u16>) {
    match last_colon(t) {
        None => (t, Some(22u16)),
        Some(i) => {
            let port_text = t.subrange(i + 1, t.len() as int);
            let host = t.subrange(0, i);
            if port_text.len() == 0 {
                (host, Some(22u16))
            } else {
                match parse_u16_spec(trim(port_text)) {
                    Some(p) => if p != 0 {
                        (host, Some(p))
                    } else {
                        (host, None)
                    },
                    None => (host, None),
                }
            }
        },
    }
}

/// The endpoint that one non-blank trimmed item `t` denotes, or its error.
pub open spec fn parse_item(t: Seq<char>) -> Result<EndpointView, Seq<char>> {
    let (host, port) = split_host_port(t);
    match port {
        None => Err(port_error(t)),
        Some(p) => if trim(host).len() == 0 {
            Err(host_error(t))
        } else {
            Ok(EndpointView { host: trim(host), port: p })
        },
    }
}

/// The endpoints of a list of pieces: blank pieces are skipped, the first
/// bad item decides the error.
pub open spec fn parse_pieces(ps: Seq<Seq<char>>) -> Result<Seq<EndpointView>, Seq<char>>
    decreases ps.len(),
{
    if ps.len() == 0 {
        Ok(Seq::empty())
    } else {
        match parse_pieces(ps.drop_last()) {
            Err(e) => Err(e),
            Ok(v) => {
                let t = trim(ps.last());
                if t.len() == 0 {
                    Ok(v)
                } else {
                    match parse_item(t) {
                        Err(e) => Err(e),
                        Ok(ep) => Ok(v.push(ep)),
                    }
                }
            },
        }
    }
}

/// What `parse_endpoints` gives for the text `s`.
pub open spec fn parse_endpoints_spec(s: Seq<char>) -> Result<Seq<EndpointView>, Seq<char>> {
    parse_pieces(split_pieces(s))
}

/// The index of the last `:` in `t`.
pub fn find_last_colon(t: &[char]) -> (r: Option<usize>)
    ensures
        match r {
            None => last_colon(t@) is None,
            Some(i) => last_colon(t@) == Some(i as int) && i < t@.len(),
        },
{
    let mut j: usize = t.len();
    assert(t@.subrange(0, j as int) =~= t@);
    while j > 0
        invariant
            j <= t@.len(),
            last_colon(t@) == last_colon(t@.subrange(0, j as int)),
        decreases j,
    {
        let ghost u = t@.subrange(0, j as int);
        assert(u.drop_last() =~= t@.subrange(0, j as int - 1));
        if t[j - 1] == ':' {
            return Some(j - 1);
        }
        j = j - 1;
    }
    None
}

/// Builds `"Endpoint '" + t + tail`.
fn endpoint_message(t: &[char], tail: &str) -> (r: String)
    ensures
        r@ == "Endpoint '"@ + t@ + tail@,
{
    let mut m = String::from_str("Endpoint '");
    let body = string_of(t);
    m.append(body.as_str());
    m.append(tail);
    m
}

/// Parses one non-blank trimmed item.
pub fn parse_endpoint_item(t: &[char]) -> (r: Result<SshEndpoint, String>)
    ensures
        match (r, parse_item(t@)) {
            (Ok(e), Ok(v)) => e@ == v,
            (Err(e), Err(m)) => e@ == m,
            _ => false,
        },
{
    let n = t.len();
    let colon = find_last_colon(t);
    let host: Vec<char>;
    let port: u16;
    match colon {
        None => {
            host = sub_chars(t, 0, n);
            assert(host@ =~= t@);
            port = 22;
        },
        Some(i) => {
            host = sub_chars(t, 0, i);
            if i + 1 == n {
                port = 22;
            } else {
                let port_text = sub_chars(t, i + 1, n);
                let trimmed = trim_chars(&port_text);
                match parse_u16(&trimmed) {
                    Some(p) => {
                        if p == 0 {
                            return Err(endpoint_message(t, "' has invalid port"));
                        }
                        port = p;
                    },
                    None => {
                        return Err(endpoint_message(t, "' has invalid port"));
                    },
                }
            }
        },
    }
    let h = trim_chars(&host);
    if h.len() == 0 {
        return Err(endpoint_message(t, "' has an empty host"));
    }
    Ok(SshEndpoint { host: string_of(&h), port })
}

/// Reads the endpoint list of the host form.
///
/// Items are separated by commas or new lines and trimmed; blank items are
/// skipped. An item is `host` or `host:port`, split at its last `:`; an empty
/// port means 22. The first item with a bad port or a blank host makes the
/// whole list an error naming that item.
pub fn parse_endpoints(value: &str) -> (r: Result<Vec<SshEndpoint>, String>)
    ensures
        match (r, parse_endpoints_spec(value@)) {
            (Ok(v), Ok(sv)) => endpoints_view(v@) == sv,
            (Err(e), Err(m)) => e@ == m,
            _ => false,
        },
{
    let cs = chars_of(value);
    let pieces = split_endpoint_text(&cs);
    let ghost ps = pieces_view(pieces@);
    let mut out: Vec<SshEndpoint> = Vec::new();
    let mut k: usize = 0;
    assert(ps.subrange(0, 0) =~= Seq::<Seq<char>>::empty());
    assert(endpoints_view(out@) =~= Seq::<EndpointView>::empty());
    while k < pieces.len()
        invariant
            k <= pieces@.len(),
            ps == pieces_view(pieces@),
            ps == split_pieces(value@),
            parse_pieces(ps.subrange(0, k as int)) == Ok::<Seq<EndpointView>, Seq<char>>(
                endpoints_view(out@),
            ),
        decreases pieces@.len() - k,
    {
        let ghost prefix = ps.subrange(0, k as int + 1);
        assert(prefix.drop_last() =~= ps.subrange(0, k as int));
        assert(prefix.last() == pieces@[k as int]@);
        let t = trim_chars(&pieces[k]);
        if t.len() > 0 {
            match parse_endpoint_item(&t) {
                Ok(ep) => {
                    let ghost before = out@;
                    out.push(ep);
                    assert(endpoints_view(out@) =~= endpoints_view(before).push(out@.last()@));
                },
                Err(e) => {
                    assert(parse_pieces(prefix) == Err::<Seq<EndpointView>, Seq<char>>(e@));
                    proof {
                        lemma_parse_pieces_err_sticks(ps, k as int + 1);
                    }
                    assert(ps.subrange(0, ps.len() as int) =~= ps);
                    return Err(e);
                },
            }
        }
        k = k + 1;
    }
    assert(ps.subrange(0, ps.len() as int) =~= ps);
    Ok(out)
}

proof fn lemma_parse_pieces_err_sticks(ps: Seq<Seq<char>>, k: int)
    requires
        0 <= k <= ps.len(),
        parse_pieces(ps.subrange(0, k)) is Err,
    ensures
        parse_pieces(ps) == parse_pieces(ps.subrange(0, k)),
    decreases ps.len() - k,
{
    if k < ps.len() {
        let next = ps.subrange(0, k + 1);
        assert(next.drop_last() =~= ps.subrange(0, k));
        lemma_parse_pieces_err_sticks(ps, k + 1);
    } else {
        assert(ps.subrange(0, k) =~= ps);
    }
}

} // verus!
