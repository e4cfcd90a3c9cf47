//! The `Cookie` request header: pairs of name and value between semicolons.
//!
//! A header is cut at every `;`. Each piece loses the white space at its
//! ends and is cut once more at its first `=`: what stands before is the
//! name, what stands after is the value. A piece without `=` names no cookie.

use vstd::prelude::*;

verus! {

/// Whether a character is white space, as `char::is_whitespace` has it.
pub open spec fn is_space(c: char) -> bool {
    let u = c as u32;
    u == 0x20 || (0x9 <= u <= 0xd) || u == 0x85 || u == 0xa0 || u == 0x1680 || (0x2000 <= u
        <= 0x200a) || u == 0x2028 || u == 0x2029 || u == 0x202f || u == 0x205f || u == 0x3000
}

/// Executable form of [`is_space`].
pub fn space(c: char) -> (b: bool)
    ensures
        b == is_space(c),
{
    let u = c as u32;
    u == 0x20 || (0x9 <= u && u <= 0xd) || u == 0x85 || u == 0xa0 || u == 0x1680 || (0x2000 <= u
        && u <= 0x200a) || u == 0x2028 || u == 0x2029 || u == 0x202f || u == 0x205f || u
        == 0x3000
}

/// The first place from `a` on, before `b`, that holds no white space; `b`
/// if there is none.
pub open spec fn lead(s: Seq<char>, a: int, b: int) -> int
    decreases b - a,
{
    if 0 <= a < b <= s.len() && is_space(s[a]) {
        lead(s, a + 1, b)
    } else {
        a
    }
}

/// The end of the last stretch before `b`, not before `a`, that holds no
/// white space; `a` if there is none.
pub open spec fn tail(s: Seq<char>, a: int, b: int) -> int
    decreases b - a,
{
    if 0 <= a < b <= s.len() && is_space(s[b - 1]) {
        tail(s, a, b - 1)
    } else {
        b
    }
}

/// The first place from `a` on, before `b`, that holds `c`; `b` if there is
/// none.
pub open spec fn find(s: Seq<char>, c: char, a: int, b: int) -> int
    decreases b - a,
{
    if 0 <= a < b <= s.len() && s[a] != c {
        find(s, c, a + 1, b)
    } else {
        a
    }
}

/// The cookie that the piece of `s` from `a` to `b` names, if it names one.
pub open spec fn piece_pair(s: Seq<char>, a: int, b: int) -> Option<(Seq<char>, Seq<char>)> {
    let x = lead(s, a, b);
    let y = tail(s, x, b);
    let k = find(s, '=', x, y);
    if x <= k < y <= s.len() {
        Some((s.subrange(x, k), s.subrange(k + 1, y)))
    } else {
        None
    }
}

/// One cookie as a sequence, or no cookie as the empty sequence.
pub open spec fn listed(p: Option<(Seq<char>, Seq<char>)>) -> Seq<(Seq<char>, Seq<char>)> {
    match p {
        Some(p) => seq![p],
        None => Seq::empty(),
    }
}

/// The cookies named from place `p` on, when the piece that begins at `p`
/// holds no `;` before place `i`.
pub open spec fn scan(s: Seq<char>, p: int, i: int) -> Seq<(Seq<char>, Seq<char>)>
    decreases s.len() - i,
{
    if 0 <= p <= i < s.len() {
        if s[i] == ';' {
            listed(piece_pair(s, p, i)) + scan(s, i + 1, i + 1)
        } else {
            scan(s, p, i + 1)
        }
    } else {
        listed(piece_pair(s, p, s.len() as int))
    }
}

/// The cookies that a `Cookie` header names, in the header's order.
pub open spec fn cookie_pairs(s: Seq<char>) -> Seq<(Seq<char>, Seq<char>)> {
    scan(s, 0, 0)
}

/// The names and values of pairs of strings.
pub open spec fn pairs_view(v: Seq<(String, String)>) -> Seq<(Seq<char>, Seq<char>)> {
    v.map_values(|p: (String, String)| (p.0@, p.1@))
}

/// The characters of a string, one by one.
pub fn chars_of(s: &str) -> (v: Vec<char>)
    ensures
        v@ == s@,
{
    let n = s.unicode_len();
    let mut v: Vec<char> = Vec::new();
    let mut i: usize = 0;
    while i < n
        invariant
            i <= n,
            n == s@.len(),
            v@ == s@.subrange(0, i as int),
        decreases n - i,
    {
        v.push(s.get_char(i));
        i += 1;
    }
    v
}

/// Computes [`piece_pair`] for the piece of `s` from `a` to `b`; `chars` are
/// the characters of `s`.
fn pair_in(s: &str, chars: &Vec<char>, a: usize, b: usize) -> (r: Option<(String, String)>)
    requires
        chars@ == s@,
        a <= b <= s@.len(),
    ensures
        listed(piece_pair(s@, a as int, b as int)) == pairs_view(listed_strings(r)),
{
    let mut x = a;
    while x < b && space(chars[x])
        invariant
            a <= x <= b <= s@.len(),
            chars@ == s@,
            lead(s@, a as int, b as int) == lead(s@, x as int, b as int),
        decreases b - x,
    {
        x += 1;
    }
    let mut y = b;
    while x < y && space(chars[y - 1])
        invariant
            x <= y <= b <= s@.len(),
            chars@ == s@,
            tail(s@, x as int, b as int) == tail(s@, x as int, y as int),
        decreases y - x,
    {
        y -= 1;
    }
    let mut k = x;
    while k < y && chars[k] != '='
        invariant
            x <= k <= y <= s@.len(),
            chars@ == s@,
            find(s@, '=', x as int, y as int) == find(s@, '=', k as int, y as int),
        decreases y - k,
    {
        k += 1;
    }
    if k < y {
        let name = s.substring_char(x, k).to_owned();
        let value = s.substring_char(k + 1, y).to_owned();
        let r = Some((name, value));
        r
    } else {
        None
    }
}

/// One pair of strings as a sequence, or none as the empty sequence.
pub open spec fn listed_strings(p: Option<(String, String)>) -> Seq<(String, String)> {
    match p {
        Some(p) => seq![p],
        None => Seq::empty(),
    }
}

/// The cookies that a `Cookie` header names: see [`cookie_pairs`].
pub fn parse_cookie_header(header: &str) -> (pairs: Vec<(String, String)>)
    ensures
        pairs_view(pairs@) == cookie_pairs(header@),
{
    let chars = chars_of(header);
    let n = chars.len();
    let mut pairs: Vec<(String, String)> = Vec::new();
    let mut p: usize = 0;
    let mut i: usize = 0;
    while i < n
        invariant
            p <= i <= n,
            n == header@.len(),
            chars@ == header@,
            cookie_pairs(header@) == pairs_view(pairs@) + scan(header@, p as int, i as int),
        decreases n - i,
    {
        if chars[i] == ';' {
            let found = pair_in(header, &chars, p, i);
            match found {
                Some(pair) => {
                    pairs.push(pair);
                },
                None => {},
            }
            p = i + 1;
        }
        i += 1;
    }
    let found = pair_in(header, &chars, p, n);
    match found {
        Some(pair) => {
            pairs.push(pair);
        },
        None => {},
    }
    pairs
}

} // verus!
