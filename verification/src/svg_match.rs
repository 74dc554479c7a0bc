//! Tolerant SVG comparison: two SVG texts agree when every byte outside
//! numeric tokens is equal and the numeric tokens pair up one to one; inside
//! `data-points="<base64>"` attributes the comparison recurses into the
//! decoded payloads. This module decides the structure of the comparison and
//! returns the pairs of numeric tokens that must agree within tolerance;
//! deciding each pair's closeness needs floating point and is done by the
//! caller.
use vstd::prelude::*;
use crate::shell::{b64_encode, b64_sym, enc_chunk};

verus! {

// ---------------------------------------------------------------------------
// Byte classes
// ---------------------------------------------------------------------------

pub open spec fn is_digit_b(b: u8) -> bool {
    48 <= b && b <= 57
}

pub open spec fn is_alnum_b(b: u8) -> bool {
    (48 <= b && b <= 57) || (65 <= b && b <= 90) || (97 <= b && b <= 122)
}

// ---------------------------------------------------------------------------
// Numeric tokens
// ---------------------------------------------------------------------------

/// End of the run of ASCII digits starting at `j`.
pub open spec fn digits_end(s: Seq<u8>, j: int) -> int
    decreases s.len() - j,
{
    if 0 <= j < s.len() && is_digit_b(s[j]) {
        digits_end(s, j + 1)
    } else {
        j
    }
}

/// End of an optional exponent `[eE][+-]?digits` starting at `j`; `j` itself
/// when no complete exponent is there.
pub open spec fn exponent_end(s: Seq<u8>, j: int) -> int {
    if 0 <= j < s.len() && (s[j] == 101 || s[j] == 69) {
        let k = if j + 1 < s.len() && (s[j + 1] == 43 || s[j + 1] == 45) {
            j + 2
        } else {
            j + 1
        };
        if digits_end(s, k) > k {
            digits_end(s, k)
        } else {
            j
        }
    } else {
        j
    }
}

/// Length of the unsigned part of a number starting at `j` (relative to
/// `i`, the token start): digits, optional `.digits`, optional exponent;
/// 0 when there is no digit at all.
pub open spec fn number_body_len(s: Seq<u8>, i: int, j: int) -> int {
    let j1 = digits_end(s, j);
    let has_frac = 0 <= j1 < s.len() && s[j1] == 46;
    let j2 = if has_frac {
        digits_end(s, j1 + 1)
    } else {
        j1
    };
    let had_digit = j1 > j || (has_frac && j2 > j1 + 1);
    if !had_digit {
        0
    } else {
        exponent_end(s, j2) - i
    }
}

/// Length in bytes of the numeric token starting at `s[i]`, or 0 if no
/// number starts there. A `-` belongs to the number only when a digit or
/// `.digit` follows and the preceding byte is neither an ASCII letter or
/// digit nor `_` (so the `-1` of `actor-1` is no number).
pub open spec fn spec_num_token_len(s: Seq<u8>, i: int) -> int {
    if i < 0 || i >= s.len() {
        0
    } else if s[i] == 45 {
        if i + 1 >= s.len() {
            0
        } else if !(is_digit_b(s[i + 1]) || (s[i + 1] == 46 && i + 2 < s.len() && is_digit_b(
            s[i + 2],
        ))) {
            0
        } else if i > 0 && (is_alnum_b(s[i - 1]) || s[i - 1] == 95) {
            0
        } else {
            number_body_len(s, i, i + 1)
        }
    } else {
        number_body_len(s, i, i)
    }
}

pub proof fn lemma_digits_end(s: Seq<u8>, j: int)
    requires
        0 <= j <= s.len(),
    ensures
        j <= digits_end(s, j) <= s.len(),
    decreases s.len() - j,
{
    if 0 <= j < s.len() && is_digit_b(s[j]) {
        lemma_digits_end(s, j + 1);
    }
}

proof fn lemma_exponent_end(s: Seq<u8>, j: int)
    requires
        0 <= j <= s.len(),
    ensures
        j <= exponent_end(s, j) <= s.len(),
{
    if 0 <= j < s.len() && (s[j] == 101 || s[j] == 69) {
        let k = if j + 1 < s.len() && (s[j + 1] == 43 || s[j + 1] == 45) {
            j + 2
        } else {
            j + 1
        };
        lemma_digits_end(s, k);
    }
}

proof fn lemma_number_body_len(s: Seq<u8>, i: int, j: int)
    requires
        0 <= i <= j <= s.len(),
    ensures
        0 <= number_body_len(s, i, j),
        i + number_body_len(s, i, j) <= s.len(),
{
    lemma_digits_end(s, j);
    let j1 = digits_end(s, j);
    let has_frac = 0 <= j1 < s.len() && s[j1] == 46;
    if has_frac {
        lemma_digits_end(s, j1 + 1);
    }
    let j2 = if has_frac {
        digits_end(s, j1 + 1)
    } else {
        j1
    };
    lemma_exponent_end(s, j2);
}

pub proof fn lemma_num_token_len(s: Seq<u8>, i: int)
    requires
        0 <= i <= s.len(),
    ensures
        0 <= spec_num_token_len(s, i),
        i + spec_num_token_len(s, i) <= s.len(),
{
    if 0 <= i < s.len() {
        if s[i] == 45 {
            if i + 1 < s.len() {
                lemma_number_body_len(s, i, i + 1);
            }
        } else {
            lemma_number_body_len(s, i, i);
        }
    }
}

// ---------------------------------------------------------------------------
// Base64 decoding
// ---------------------------------------------------------------------------

/// Space, tab, line feed or carriage return.
pub open spec fn is_ws_b(b: u8) -> bool {
    b == 32 || b == 10 || b == 13 || b == 9
}

/// `s` with whitespace bytes removed.
pub open spec fn strip_ws(s: Seq<u8>) -> Seq<u8>
    decreases s.len(),
{
    if s.len() == 0 {
        Seq::empty()
    } else {
        strip_ws(s.drop_last()) + if is_ws_b(s.last()) {
            Seq::<u8>::empty()
        } else {
            seq![s.last()]
        }
    }
}

/// The 6-bit value of a base64 symbol; `=` padding counts as 0.
pub open spec fn b64_val(c: u8) -> Option<u8> {
    if 65 <= c && c <= 90 {
        Some((c - 65) as u8)
    } else if 97 <= c && c <= 122 {
        Some((c - 71) as u8)
    } else if 48 <= c && c <= 57 {
        Some((c + 4) as u8)
    } else if c == 43 {
        Some(62)
    } else if c == 47 {
        Some(63)
    } else if c == 61 {
        Some(0)
    } else {
        None
    }
}

/// Number of `=` among four symbols.
pub open spec fn pad_count(a: u8, b: u8, c: u8, d: u8) -> int {
    (if a == 61 {
        1int
    } else {
        0
    }) + (if b == 61 {
        1int
    } else {
        0
    }) + (if c == 61 {
        1int
    } else {
        0
    }) + (if d == 61 {
        1int
    } else {
        0
    })
}

/// The bytes of one group of four symbols: three bytes, one fewer per `=`
/// beyond the first (one `=` keeps two bytes, two or more keep one).
pub open spec fn dec_chunk(a: u8, b: u8, c: u8, d: u8) -> Option<Seq<u8>> {
    match (b64_val(a), b64_val(b), b64_val(c), b64_val(d)) {
        (Some(x0), Some(x1), Some(x2), Some(x3)) => {
            let v0 = ((x0 << 2) | (x1 >> 4)) as u8;
            let v1 = (((x1 & 15) << 4) | (x2 >> 2)) as u8;
            let v2 = (((x2 & 3) << 6) | x3) as u8;
            let pad = pad_count(a, b, c, d);
            Some(
                seq![v0] + (if pad < 2 {
                    seq![v1]
                } else {
                    Seq::<u8>::empty()
                }) + (if pad < 1 {
                    seq![v2]
                } else {
                    Seq::<u8>::empty()
                }),
            )
        },
        _ => None,
    }
}

/// Decode consecutive groups of four symbols.
pub open spec fn dec_chunks(f: Seq<u8>) -> Option<Seq<u8>>
    decreases f.len(),
{
    if f.len() < 4 {
        Some(Seq::empty())
    } else {
        match dec_chunk(f[0], f[1], f[2], f[3]) {
            None => None,
            Some(b) => match dec_chunks(f.skip(4)) {
                None => None,
                Some(r) => Some(b + r),
            },
        }
    }
}

/// Standard base64 decoding (RFC 4648 alphabet, padded): whitespace is
/// ignored; `None` when the remaining length is not a multiple of 4 or a
/// symbol lies outside the alphabet.
pub open spec fn b64_decode(input: Seq<u8>) -> Option<Seq<u8>> {
    let f = strip_ws(input);
    if f.len() % 4 != 0 {
        None
    } else {
        dec_chunks(f)
    }
}

pub proof fn lemma_strip_ws_len(s: Seq<u8>)
    ensures
        strip_ws(s).len() <= s.len(),
    decreases s.len(),
{
    if s.len() > 0 {
        lemma_strip_ws_len(s.drop_last());
    }
}

pub proof fn lemma_dec_chunks_len(f: Seq<u8>)
    ensures
        dec_chunks(f) matches Some(d) ==> d.len() <= f.len(),
    decreases f.len(),
{
    if f.len() >= 4 {
        lemma_dec_chunks_len(f.skip(4));
    }
}

/// A decoded payload is never longer than its encoding.
pub proof fn lemma_b64_decode_len(s: Seq<u8>)
    ensures
        b64_decode(s) matches Some(d) ==> d.len() <= s.len(),
{
    lemma_strip_ws_len(s);
    lemma_dec_chunks_len(strip_ws(s));
}

// ---------------------------------------------------------------------------
// Structural walk
// ---------------------------------------------------------------------------

/// The bytes of `data-points="`.
pub open spec fn dp_marker() -> Seq<u8> {
    seq![100u8, 97, 116, 97, 45, 112, 111, 105, 110, 116, 115, 61, 34]
}

/// `p` occurs in `s` at position `i`.
pub open spec fn occurs_at(s: Seq<u8>, i: int, p: Seq<u8>) -> bool {
    0 <= i && i + p.len() <= s.len() && s.subrange(i, i + p.len()) == p
}

/// First position `p >= from` holding the byte `b`.
pub open spec fn find_byte(s: Seq<u8>, from: int, b: u8) -> Option<int>
    decreases s.len() - from,
{
    if from < 0 || from >= s.len() {
        None
    } else if s[from] == b {
        Some(from)
    } else {
        find_byte(s, from + 1, b)
    }
}

pub proof fn lemma_find_byte(s: Seq<u8>, from: int, b: u8)
    ensures
        find_byte(s, from, b) matches Some(p) ==> from <= p < s.len() && s[p] == b,
    decreases s.len() - from,
{
    if !(from < 0 || from >= s.len()) && s[from] != b {
        lemma_find_byte(s, from + 1, b);
    }
}

/// Pairs of numeric tokens, one from each side.
pub type TokenPairs = Seq<(Seq<u8>, Seq<u8>)>;

/// Prepend `pre` to an outcome that may have failed.
pub open spec fn prefix_pairs(pre: TokenPairs, r: Option<TokenPairs>) -> Option<TokenPairs> {
    match r {
        Some(rest) => Some(pre + rest),
        None => None,
    }
}

/// The comparison of the payloads of two `data-points` attributes: the
/// decoded payloads compared recursively when both decode, otherwise the
/// raw payloads compared byte for byte.
pub open spec fn payload_outcome(gb: Seq<u8>, eb: Seq<u8>, inner: Option<TokenPairs>) -> Option<
    TokenPairs,
> {
    match (b64_decode(gb), b64_decode(eb)) {
        (Some(_), Some(_)) => inner,
        _ => if gb == eb {
            Some(Seq::empty())
        } else {
            None
        },
    }
}

/// Walk `g[gi..]` and `e[ei..]` in step. `None` when the texts differ
/// outside numeric tokens (or a `data-points` payload is not closed by `"`);
/// otherwise the numeric token pairs met on the way, in order.
pub open spec fn match_from(g: Seq<u8>, e: Seq<u8>, gi: int, ei: int) -> Option<TokenPairs>
    decreases g.len() + e.len(), (g.len() - gi) + (e.len() - ei),
{
    if gi < 0 || ei < 0 || gi > g.len() || ei > e.len() {
        None
    } else if !(gi < g.len() && ei < e.len()) {
        if gi == g.len() && ei == e.len() {
            Some(Seq::empty())
        } else {
            None
        }
    } else if occurs_at(g, gi, dp_marker()) && occurs_at(e, ei, dp_marker()) {
        let gs = gi + 13;
        let es = ei + 13;
        proof {
            lemma_find_byte(g, gs, 34);
            lemma_find_byte(e, es, 34);
        }
        match (find_byte(g, gs, 34), find_byte(e, es, 34)) {
            (Some(ge), Some(ee)) => {
                let gb = g.subrange(gs, ge);
                let eb = e.subrange(es, ee);
                proof {
                    lemma_b64_decode_len(gb);
                    lemma_b64_decode_len(eb);
                }
                let inner = match (b64_decode(gb), b64_decode(eb)) {
                    (Some(gd), Some(ed)) => match_from(gd, ed, 0, 0),
                    _ => None,
                };
                match payload_outcome(gb, eb, inner) {
                    None => None,
                    Some(ps) => prefix_pairs(ps, match_from(g, e, ge + 1, ee + 1)),
                }
            },
            _ => None,
        }
    } else {
        let gn = spec_num_token_len(g, gi);
        let en = spec_num_token_len(e, ei);
        proof {
            lemma_num_token_len(g, gi);
            lemma_num_token_len(e, ei);
        }
        if gn > 0 && en > 0 {
            prefix_pairs(
                seq![(g.subrange(gi, gi + gn), e.subrange(ei, ei + en))],
                match_from(g, e, gi + gn, ei + en),
            )
        } else if g[gi] != e[ei] {
            None
        } else {
            match_from(g, e, gi + 1, ei + 1)
        }
    }
}

// ---------------------------------------------------------------------------
// Executable forms
// ---------------------------------------------------------------------------

fn is_digit_exec(b: u8) -> (r: bool)
    ensures
        r == is_digit_b(b),
{
    48 <= b && b <= 57
}

fn is_alnum_exec(b: u8) -> (r: bool)
    ensures
        r == is_alnum_b(b),
{
    (48 <= b && b <= 57) || (65 <= b && b <= 90) || (97 <= b && b <= 122)
}

fn digits_end_exec(s: &[u8], j: usize) -> (r: usize)
    requires
        j <= s.len(),
    ensures
        r == digits_end(s@, j as int),
{
    let mut k = j;
    while k < s.len() && is_digit_exec(s[k])
        invariant
            j <= k <= s.len(),
            digits_end(s@, j as int) == digits_end(s@, k as int),
        decreases s.len() - k,
    {
        k = k + 1;
    }
    k
}

fn exponent_end_exec(s: &[u8], j: usize) -> (r: usize)
    requires
        j <= s.len(),
    ensures
        r == exponent_end(s@, j as int),
{
    if j < s.len() && (s[j] == 101 || s[j] == 69) {
        let k = if j + 1 < s.len() && (s[j + 1] == 43 || s[j + 1] == 45) {
            j + 2
        } else {
            j + 1
        };
        let d = digits_end_exec(s, k);
        if d > k {
            d
        } else {
            j
        }
    } else {
        j
    }
}

fn number_body_len_exec(s: &[u8], i: usize, j: usize) -> (r: usize)
    requires
        i <= j <= s.len(),
    ensures
        r == number_body_len(s@, i as int, j as int),
{
    proof {
        lemma_number_body_len(s@, i as int, j as int);
        lemma_digits_end(s@, j as int);
    }
    let j1 = digits_end_exec(s, j);
    let has_frac = j1 < s.len() && s[j1] == 46;
    proof {
        if has_frac {
            lemma_digits_end(s@, j1 + 1);
        }
    }
    let j2 = if has_frac {
        digits_end_exec(s, j1 + 1)
    } else {
        j1
    };
    let had_digit = j1 > j || (has_frac && j2 > j1 + 1);
    if !had_digit {
        0
    } else {
        proof {
            lemma_exponent_end(s@, j2 as int);
        }
        exponent_end_exec(s, j2) - i
    }
}

/// Length in bytes of the numeric token starting at `s[i]`, or 0 if no
/// number starts here: optional `-`, integer and/or decimal part, optional
/// exponent. The `-` counts only when followed by a digit or `.digit` and
/// not preceded by an ASCII letter, digit or `_`.
pub fn num_token_len(s: &[u8], i: usize) -> (r: usize)
    ensures
        r == spec_num_token_len(s@, i as int),
{
    if i >= s.len() {
        return 0;
    }
    if s[i] == 45 {
        if i + 1 >= s.len() {
            return 0;
        }
        let next = s[i + 1];
        let next_num = is_digit_exec(next) || (next == 46 && i + 2 < s.len() && is_digit_exec(
            s[i + 2],
        ));
        if !next_num {
            return 0;
        }
        if i > 0 {
            let prev = s[i - 1];
            if is_alnum_exec(prev) || prev == 95 {
                return 0;
            }
        }
        number_body_len_exec(s, i, i + 1)
    } else {
        number_body_len_exec(s, i, i)
    }
}

fn is_ws_exec(b: u8) -> (r: bool)
    ensures
        r == is_ws_b(b),
{
    b == 32 || b == 10 || b == 13 || b == 9
}

fn b64_val_exec(c: u8) -> (r: Option<u8>)
    ensures
        r == b64_val(c),
{
    if 65 <= c && c <= 90 {
        Some(c - 65)
    } else if 97 <= c && c <= 122 {
        Some(c - 71)
    } else if 48 <= c && c <= 57 {
        Some(c + 4)
    } else if c == 43 {
        Some(62)
    } else if c == 47 {
        Some(63)
    } else if c == 61 {
        Some(0)
    } else {
        None
    }
}

/// Standard base64 decode (RFC 4648 alphabet, padded). Whitespace is
/// skipped; `None` on a symbol outside the alphabet (besides `=` padding)
/// or a length that is not a multiple of 4.
pub fn base64_decode(input: &[u8]) -> (r: Option<Vec<u8>>)
    ensures
        r matches Some(v) ==> b64_decode(input@) == Some(v@),
        r is None ==> b64_decode(input@) is None,
{
    let mut f: Vec<u8> = Vec::new();
    let mut k: usize = 0;
    while k < input.len()
        invariant
            k <= input.len(),
            f@ == strip_ws(input@.take(k as int)),
        decreases input.len() - k,
    {
        let b = input[k];
        if !is_ws_exec(b) {
            f.push(b);
        }
        assert(input@.take(k + 1).drop_last() == input@.take(k as int));
        k = k + 1;
    }
    assert(input@.take(input.len() as int) == input@);
    if f.len() % 4 != 0 {
        return None;
    }
    let mut out: Vec<u8> = Vec::new();
    let mut i: usize = 0;
    assert(f@.skip(0) == f@);
    assert(Seq::<u8>::empty() + f@ == f@);
    while i < f.len()
        invariant
            i <= f.len(),
            f.len() % 4 == 0,
            i % 4 == 0,
            f@ == strip_ws(input@),
            dec_chunks(f@) == (match dec_chunks(f@.skip(i as int)) {
                Some(r) => Some(out@ + r),
                None => None,
            }),
        decreases f.len() - i,
    {
        let ghost rest = f@.skip(i as int);
        assert(rest[0] == f[i as int] && rest[1] == f[i + 1] && rest[2] == f[i + 2] && rest[3]
            == f[i + 3]);
        assert(rest.skip(4) == f@.skip(i + 4));
        let a = f[i];
        let b = f[i + 1];
        let c = f[i + 2];
        let d = f[i + 3];
        match (b64_val_exec(a), b64_val_exec(b), b64_val_exec(c), b64_val_exec(d)) {
            (Some(x0), Some(x1), Some(x2), Some(x3)) => {
                let pad: u8 = (if a == 61 {
                    1u8
                } else {
                    0
                }) + (if b == 61 {
                    1u8
                } else {
                    0
                }) + (if c == 61 {
                    1u8
                } else {
                    0
                }) + (if d == 61 {
                    1u8
                } else {
                    0
                });
                let v0: u8 = (x0 << 2) | (x1 >> 4);
                let v1: u8 = ((x1 & 15) << 4) | (x2 >> 2);
                let v2: u8 = ((x2 & 3) << 6) | x3;
                let ghost before = out@;
                out.push(v0);
                if pad < 2 {
                    out.push(v1);
                }
                if pad < 1 {
                    out.push(v2);
                }
                assert(dec_chunk(a, b, c, d) == Some(out@.subrange(before.len() as int, out@.len() as int)));
                assert(out@ == before + out@.subrange(before.len() as int, out@.len() as int));
            },
            _ => {
                return None;
            },
        }
        i = i + 4;
    }
    assert(f@.skip(i as int) =~= Seq::<u8>::empty());
    assert(out@ + Seq::<u8>::empty() == out@);
    Some(out)
}

/// The token pairs held by an executable result.
pub open spec fn pairs_view(v: Seq<(Vec<u8>, Vec<u8>)>) -> TokenPairs {
    v.map_values(|p: (Vec<u8>, Vec<u8>)| (p.0@, p.1@))
}

proof fn lemma_prefix_pairs_assoc(a: TokenPairs, b: TokenPairs, r: Option<TokenPairs>)
    ensures
        prefix_pairs(a, prefix_pairs(b, r)) == prefix_pairs(a + b, r),
{
    if let Some(rest) = r {
        assert(a + (b + rest) =~= (a + b) + rest);
    }
}

fn dp_marker_exec() -> (v: Vec<u8>)
    ensures
        v@ == dp_marker(),
{
    let mut v: Vec<u8> = Vec::new();
    v.push(100);
    v.push(97);
    v.push(116);
    v.push(97);
    v.push(45);
    v.push(112);
    v.push(111);
    v.push(105);
    v.push(110);
    v.push(116);
    v.push(115);
    v.push(61);
    v.push(34);
    assert(v@ =~= dp_marker());
    v
}

fn occurs_at_exec(s: &[u8], i: usize, p: &Vec<u8>) -> (r: bool)
    ensures
        r == occurs_at(s@, i as int, p@),
{
    if i > s.len() || p.len() > s.len() - i {
        return false;
    }
    let mut j: usize = 0;
    while j < p.len()
        invariant
            j <= p.len(),
            i + p.len() <= s.len(),
            forall|t: int| 0 <= t < j ==> s@[i + t] == p@[t],
        decreases p.len() - j,
    {
        if s[i + j] != p[j] {
            assert(s@.subrange(i as int, i + p.len())[j as int] != p@[j as int]);
            return false;
        }
        j = j + 1;
    }
    assert(s@.subrange(i as int, i + p.len()) =~= p@);
    true
}

fn find_byte_exec(s: &[u8], from: usize, b: u8) -> (r: Option<usize>)
    ensures
        r matches Some(p) ==> find_byte(s@, from as int, b) == Some(p as int),
        r is None ==> find_byte(s@, from as int, b) is None,
{
    let mut p = from;
    while p < s.len()
        invariant
            from <= p,
            find_byte(s@, from as int, b) == find_byte(s@, p as int, b),
        decreases s.len() - p,
    {
        if s[p] == b {
            return Some(p);
        }
        p = p + 1;
    }
    None
}

fn copy_range(s: &[u8], a: usize, b: usize) -> (r: Vec<u8>)
    requires
        a <= b <= s.len(),
    ensures
        r@ == s@.subrange(a as int, b as int),
{
    let mut r: Vec<u8> = Vec::new();
    let mut i = a;
    while i < b
        invariant
            a <= i <= b <= s.len(),
            r@ == s@.subrange(a as int, i as int),
        decreases b - i,
    {
        r.push(s[i]);
        assert(s@.subrange(a as int, i + 1) == s@.subrange(a as int, i as int).push(s@[i as int]));
        i = i + 1;
    }
    r
}

fn bytes_eq(a: &Vec<u8>, b: &Vec<u8>) -> (r: bool)
    ensures
        r == (a@ == b@),
{
    if a.len() != b.len() {
        return false;
    }
    let mut i: usize = 0;
    while i < a.len()
        invariant
            i <= a.len(),
            a.len() == b.len(),
            forall|j: int| 0 <= j < i ==> a@[j] == b@[j],
        decreases a.len() - i,
    {
        if a[i] != b[i] {
            return false;
        }
        i = i + 1;
    }
    assert(a@ =~= b@);
    true
}

/// Compare two SVG byte strings structurally. Returns `None` when they
/// differ outside numeric tokens (or a `data-points` payload lacks its
/// closing `"`); otherwise the pairs of numeric tokens, in order, that must
/// agree numerically for the texts to match. Inside `data-points="…"` both
/// payloads are base64-decoded and compared the same way; when either fails
/// to decode, the raw payloads must be equal.
pub fn match_inner(g: &[u8], e: &[u8]) -> (r: Option<Vec<(Vec<u8>, Vec<u8>)>>)
    ensures
        r matches Some(v) ==> match_from(g@, e@, 0, 0) == Some(pairs_view(v@)),
        r is None ==> match_from(g@, e@, 0, 0) is None,
    decreases g@.len() + e@.len(),
{
    let dp = dp_marker_exec();
    let mut acc: Vec<(Vec<u8>, Vec<u8>)> = Vec::new();
    let mut gi: usize = 0;
    let mut ei: usize = 0;
    assert(pairs_view(acc@) =~= Seq::<(Seq<u8>, Seq<u8>)>::empty());
    proof {
        if let Some(rest) = match_from(g@, e@, 0, 0) {
            assert(Seq::<(Seq<u8>, Seq<u8>)>::empty() + rest =~= rest);
        }
    }
    while gi < g.len() && ei < e.len()
        invariant
            gi <= g.len(),
            ei <= e.len(),
            dp@ == dp_marker(),
            match_from(g@, e@, 0, 0) == prefix_pairs(pairs_view(acc@), match_from(g@, e@, gi as int, ei as int)),
        decreases (g.len() - gi) + (e.len() - ei),
    {
        if occurs_at_exec(g, gi, &dp) && occurs_at_exec(e, ei, &dp) {
            let gs = gi + 13;
            let es = ei + 13;
            proof {
                lemma_find_byte(g@, gs as int, 34);
                lemma_find_byte(e@, es as int, 34);
            }
            let g_end = match find_byte_exec(g, gs, 34) {
                Some(p) => p,
                None => {
                    return None;
                },
            };
            let e_end = match find_byte_exec(e, es, 34) {
                Some(p) => p,
                None => {
                    return None;
                },
            };
            let gb = copy_range(g, gs, g_end);
            let eb = copy_range(e, es, e_end);
            proof {
                lemma_b64_decode_len(gb@);
                lemma_b64_decode_len(eb@);
            }
            let ps: Vec<(Vec<u8>, Vec<u8>)> = match (base64_decode(gb.as_slice()), base64_decode(
                eb.as_slice(),
            )) {
                (Some(gd), Some(ed)) => match match_inner(gd.as_slice(), ed.as_slice()) {
                    Some(v) => v,
                    None => {
                        return None;
                    },
                },
                _ => {
                    if bytes_eq(&gb, &eb) {
                        Vec::new()
                    } else {
                        return None;
                    }
                },
            };
            proof {
                lemma_prefix_pairs_assoc(pairs_view(acc@), pairs_view(ps@), match_from(g@, e@, g_end + 1, e_end + 1));
                assert(pairs_view(acc@ + ps@) =~= pairs_view(acc@) + pairs_view(ps@));
                if ps@.len() == 0 {
                    assert(pairs_view(ps@) =~= Seq::<(Seq<u8>, Seq<u8>)>::empty());
                }
            }
            let mut ps = ps;
            acc.append(&mut ps);
            gi = g_end + 1;
            ei = e_end + 1;
        } else {
            let g_num = num_token_len(g, gi);
            let e_num = num_token_len(e, ei);
            proof {
                lemma_num_token_len(g@, gi as int);
                lemma_num_token_len(e@, ei as int);
            }
            if g_num > 0 && e_num > 0 {
                let gt = copy_range(g, gi, gi + g_num);
                let et = copy_range(e, ei, ei + e_num);
                proof {
                    let pair = (gt@, et@);
                    lemma_prefix_pairs_assoc(pairs_view(acc@), seq![pair], match_from(g@, e@, gi + g_num, ei + e_num));
                    assert(pairs_view(acc@.push((gt, et))) =~= pairs_view(acc@) + seq![pair]);
                }
                acc.push((gt, et));
                gi = gi + g_num;
                ei = ei + e_num;
            } else {
                if g[gi] != e[ei] {
                    return None;
                }
                gi = gi + 1;
                ei = ei + 1;
            }
        }
    }
    if gi == g.len() && ei == e.len() {
        proof {
            assert(pairs_view(acc@) + Seq::<(Seq<u8>, Seq<u8>)>::empty() =~= pairs_view(acc@));
        }
        Some(acc)
    } else {
        None
    }
}

// ---------------------------------------------------------------------------
// Laws
// ---------------------------------------------------------------------------

/// The bytes of an ASCII character sequence.
pub open spec fn ascii_bytes(s: Seq<char>) -> Seq<u8> {
    s.map_values(|c: char| c as u8)
}

proof fn lemma_sym_val(v: u8)
    requires
        v < 64,
    ensures
        b64_val(b64_sym(v) as u8) == Some(v),
        b64_sym(v) as u8 != 61,
        !is_ws_b(b64_sym(v) as u8),
{
    if v < 26 {
        assert((65 + v) as char as u8 == 65 + v);
    } else if v < 52 {
        assert((97 + (v - 26)) as char as u8 == 97 + (v - 26));
    } else if v < 62 {
        assert((48 + (v - 52)) as char as u8 == 48 + (v - 52));
    }
}

proof fn lemma_strip_ws_identity(s: Seq<u8>)
    requires
        forall|i: int| 0 <= i < s.len() ==> !is_ws_b(#[trigger] s[i]),
    ensures
        strip_ws(s) == s,
    decreases s.len(),
{
    if s.len() > 0 {
        assert forall|i: int| 0 <= i < s.drop_last().len() implies !is_ws_b(#[trigger] s.drop_last()[i]) by {
            assert(s.drop_last()[i] == s[i]);
        }
        lemma_strip_ws_identity(s.drop_last());
        assert(!is_ws_b(s[s.len() - 1]));
        assert(s.drop_last() + seq![s.last()] =~= s);
    }
}

proof fn lemma_chunk3_roundtrip(a: u8, b: u8, c: u8)
    ensures
        dec_chunk(
            b64_sym(a >> 2) as u8,
            b64_sym(((a & 3) << 4) | (b >> 4)) as u8,
            b64_sym(((b & 15) << 2) | (c >> 6)) as u8,
            b64_sym(c & 63) as u8,
        ) == Some(seq![a, b, c]),
{
    let x0 = a >> 2;
    let x1 = ((a & 3) << 4) | (b >> 4);
    let x2 = ((b & 15) << 2) | (c >> 6);
    let x3 = c & 63;
    assert(x0 < 64 && x1 < 64 && x2 < 64 && x3 < 64) by (bit_vector)
        requires
            x0 == a >> 2,
            x1 == ((a & 3) << 4) | (b >> 4),
            x2 == ((b & 15) << 2) | (c >> 6),
            x3 == c & 63,
    ;
    lemma_sym_val(x0);
    lemma_sym_val(x1);
    lemma_sym_val(x2);
    lemma_sym_val(x3);
    assert(((x0 << 2) | (x1 >> 4)) == a && (((x1 & 15) << 4) | (x2 >> 2)) == b && (((x2 & 3) << 6)
        | x3) == c) by (bit_vector)
        requires
            x0 == a >> 2,
            x1 == ((a & 3) << 4) | (b >> 4),
            x2 == ((b & 15) << 2) | (c >> 6),
            x3 == c & 63,
    ;
    let r = dec_chunk(b64_sym(x0) as u8, b64_sym(x1) as u8, b64_sym(x2) as u8, b64_sym(x3) as u8);
    assert(r.unwrap() =~= seq![a, b, c]);
}

proof fn lemma_chunk1_roundtrip(a: u8)
    ensures
        dec_chunk(b64_sym(a >> 2) as u8, b64_sym((a & 3) << 4) as u8, 61, 61) == Some(seq![a]),
{
    let x0 = a >> 2;
    let x1 = (a & 3) << 4;
    assert(x0 < 64 && x1 < 64) by (bit_vector)
        requires
            x0 == a >> 2,
            x1 == (a & 3) << 4,
    ;
    lemma_sym_val(x0);
    lemma_sym_val(x1);
    assert(((x0 << 2) | (x1 >> 4)) == a) by (bit_vector)
        requires
            x0 == a >> 2,
            x1 == (a & 3) << 4,
    ;
    let r = dec_chunk(b64_sym(x0) as u8, b64_sym(x1) as u8, 61, 61);
    assert(r.unwrap() =~= seq![a]);
}

proof fn lemma_chunk2_roundtrip(a: u8, b: u8)
    ensures
        dec_chunk(
            b64_sym(a >> 2) as u8,
            b64_sym(((a & 3) << 4) | (b >> 4)) as u8,
            b64_sym((b & 15) << 2) as u8,
            61,
        ) == Some(seq![a, b]),
{
    let x0 = a >> 2;
    let x1 = ((a & 3) << 4) | (b >> 4);
    let x2 = (b & 15) << 2;
    assert(x0 < 64 && x1 < 64 && x2 < 64) by (bit_vector)
        requires
            x0 == a >> 2,
            x1 == ((a & 3) << 4) | (b >> 4),
            x2 == (b & 15) << 2,
    ;
    lemma_sym_val(x0);
    lemma_sym_val(x1);
    lemma_sym_val(x2);
    assert(((x0 << 2) | (x1 >> 4)) == a && (((x1 & 15) << 4) | (x2 >> 2)) == b) by (bit_vector)
        requires
            x0 == a >> 2,
            x1 == ((a & 3) << 4) | (b >> 4),
            x2 == (b & 15) << 2,
    ;
    let r = dec_chunk(b64_sym(x0) as u8, b64_sym(x1) as u8, b64_sym(x2) as u8, 61);
    assert(r.unwrap() =~= seq![a, b]);
}

proof fn lemma_sym_facts(v: u8)
    requires
        v < 64,
    ensures
        !is_ws_b(b64_sym(v) as u8),
{
    lemma_sym_val(v);
}

proof fn lemma_encode_len(d: Seq<u8>)
    ensures
        b64_encode(d).len() % 4 == 0,
    decreases d.len(),
{
    if d.len() >= 3 {
        lemma_encode_len(d.skip(3));
    }
}

#[verifier::spinoff_prover]
proof fn lemma_encode_no_ws(d: Seq<u8>)
    ensures
        forall|i: int| 0 <= i < b64_encode(d).len() ==> !is_ws_b(#[trigger] ascii_bytes(b64_encode(d))[i]),
    decreases d.len(),
{
    let e = b64_encode(d);
    if d.len() == 0 {
    } else if d.len() < 3 {
        let a = d[0];
        let b: u8 = if d.len() == 2 { d[1] } else { 0 };
        assert((a >> 2) < 64 && ((a & 3) << 4) < 64 && (((a & 3) << 4) | (b >> 4)) < 64 && ((b & 15) << 2) < 64) by (bit_vector);
        lemma_sym_facts(a >> 2);
        lemma_sym_facts((a & 3) << 4);
        lemma_sym_facts(((a & 3) << 4) | (b >> 4));
        lemma_sym_facts((b & 15) << 2);
    } else {
        let rest = d.skip(3);
        lemma_encode_no_ws(rest);
        let a = d[0];
        let b = d[1];
        let c = d[2];
        assert((a >> 2) < 64 && (((a & 3) << 4) | (b >> 4)) < 64 && (((b & 15) << 2) | (c >> 6)) < 64 && (c & 63) < 64) by (bit_vector);
        lemma_sym_facts(a >> 2);
        lemma_sym_facts(((a & 3) << 4) | (b >> 4));
        lemma_sym_facts(((b & 15) << 2) | (c >> 6));
        lemma_sym_facts(c & 63);
        assert forall|i: int| 0 <= i < e.len() implies !is_ws_b(#[trigger] ascii_bytes(e)[i]) by {
            if i >= 4 {
                assert(e[i] == b64_encode(rest)[i - 4]);
                assert(ascii_bytes(e)[i] == ascii_bytes(b64_encode(rest))[i - 4]);
            }
        }
    }
}

#[verifier::spinoff_prover]
proof fn lemma_encode_decode_chunks(d: Seq<u8>)
    ensures
        dec_chunks(ascii_bytes(b64_encode(d))) == Some(d),
    decreases d.len(),
{
    let e = b64_encode(d);
    let bs = ascii_bytes(e);
    if d.len() == 0 {
        assert(bs =~= Seq::<u8>::empty());
    } else if d.len() == 1 {
        lemma_chunk1_roundtrip(d[0]);
        assert(bs.skip(4) =~= Seq::<u8>::empty());
        assert(dec_chunks(bs.skip(4)) == Some(Seq::<u8>::empty()));
        assert(bs[2] == 61 && bs[3] == 61);
        assert(seq![d[0]] + Seq::<u8>::empty() =~= d);
    } else if d.len() == 2 {
        lemma_chunk2_roundtrip(d[0], d[1]);
        assert(bs.skip(4) =~= Seq::<u8>::empty());
        assert(dec_chunks(bs.skip(4)) == Some(Seq::<u8>::empty()));
        assert(bs[3] == 61);
        assert(seq![d[0], d[1]] + Seq::<u8>::empty() =~= d);
    } else {
        let rest = d.skip(3);
        lemma_encode_decode_chunks(rest);
        lemma_chunk3_roundtrip(d[0], d[1], d[2]);
        assert(e == enc_chunk(d[0], d[1], d[2]) + b64_encode(rest));
        assert(bs.skip(4) =~= ascii_bytes(b64_encode(rest)));
        assert(seq![d[0], d[1], d[2]] + rest =~= d);
    }
}

/// Decoding what [`crate::shell::base64_encode`] produces gives back the
/// encoded bytes.
pub proof fn law_base64_roundtrip(d: Seq<u8>)
    ensures
        b64_decode(ascii_bytes(b64_encode(d))) == Some(d),
{
    lemma_encode_len(d);
    lemma_encode_no_ws(d);
    lemma_encode_decode_chunks(d);
    let bs = ascii_bytes(b64_encode(d));
    lemma_strip_ws_identity(bs);
}


/// The pairs with their two sides exchanged.
pub open spec fn swap_pairs(ps: TokenPairs) -> TokenPairs {
    ps.map_values(|p: (Seq<u8>, Seq<u8>)| (p.1, p.0))
}

/// An outcome with the two sides of every pair exchanged.
pub open spec fn swap_outcome(r: Option<TokenPairs>) -> Option<TokenPairs> {
    match r {
        Some(ps) => Some(swap_pairs(ps)),
        None => None,
    }
}

proof fn lemma_swap_prefix(a: TokenPairs, r: Option<TokenPairs>)
    ensures
        swap_outcome(prefix_pairs(a, r)) == prefix_pairs(swap_pairs(a), swap_outcome(r)),
{
    if let Some(rest) = r {
        assert(swap_pairs(a + rest) =~= swap_pairs(a) + swap_pairs(rest));
    }
}

/// Symmetry of the structural walk.
#[verifier::spinoff_prover]
proof fn lemma_match_symmetric(g: Seq<u8>, e: Seq<u8>, gi: int, ei: int)
    ensures
        match_from(e, g, ei, gi) == swap_outcome(match_from(g, e, gi, ei)),
    decreases g.len() + e.len(), (g.len() - gi) + (e.len() - ei),
{
    if gi < 0 || ei < 0 || gi > g.len() || ei > e.len() {
    } else if !(gi < g.len() && ei < e.len()) {
        if gi == g.len() && ei == e.len() {
            assert(swap_pairs(Seq::empty()) =~= Seq::<(Seq<u8>, Seq<u8>)>::empty());
        }
    } else if occurs_at(g, gi, dp_marker()) && occurs_at(e, ei, dp_marker()) {
        let gs = gi + 13;
        let es = ei + 13;
        lemma_find_byte(g, gs, 34);
        lemma_find_byte(e, es, 34);
        match (find_byte(g, gs, 34), find_byte(e, es, 34)) {
            (Some(ge), Some(ee)) => {
                let gb = g.subrange(gs, ge);
                let eb = e.subrange(es, ee);
                lemma_b64_decode_len(gb);
                lemma_b64_decode_len(eb);
                let inner = match (b64_decode(gb), b64_decode(eb)) {
                    (Some(gd), Some(ed)) => match_from(gd, ed, 0, 0),
                    _ => None,
                };
                let inner_sw = match (b64_decode(eb), b64_decode(gb)) {
                    (Some(ed), Some(gd)) => match_from(ed, gd, 0, 0),
                    _ => None,
                };
                if let (Some(gd), Some(ed)) = (b64_decode(gb), b64_decode(eb)) {
                    lemma_match_symmetric(gd, ed, 0, 0);
                } else {
                    if gb == eb {
                        assert(swap_pairs(Seq::empty()) =~= Seq::<(Seq<u8>, Seq<u8>)>::empty());
                    }
                }
                assert(payload_outcome(eb, gb, inner_sw) == swap_outcome(payload_outcome(gb, eb, inner)));
                lemma_match_symmetric(g, e, ge + 1, ee + 1);
                if let Some(ps) = payload_outcome(gb, eb, inner) {
                    lemma_swap_prefix(ps, match_from(g, e, ge + 1, ee + 1));
                }
            },
            _ => {},
        }
    } else {
        let gn = spec_num_token_len(g, gi);
        let en = spec_num_token_len(e, ei);
        lemma_num_token_len(g, gi);
        lemma_num_token_len(e, ei);
        if gn > 0 && en > 0 {
            lemma_match_symmetric(g, e, gi + gn, ei + en);
            let pair = (g.subrange(gi, gi + gn), e.subrange(ei, ei + en));
            lemma_swap_prefix(seq![pair], match_from(g, e, gi + gn, ei + en));
            assert(swap_pairs(seq![pair]) =~= seq![(pair.1, pair.0)]);
        } else if g[gi] != e[ei] {
        } else {
            lemma_match_symmetric(g, e, gi + 1, ei + 1);
        }
    }
}

/// Law (symmetry): comparing `e` with `g` fails exactly when comparing `g`
/// with `e` does, and otherwise yields the same numeric token pairs with
/// their sides exchanged.
pub proof fn law_match_symmetric(g: Seq<u8>, e: Seq<u8>)
    ensures
        match_from(e, g, 0, 0) == swap_outcome(match_from(g, e, 0, 0)),
{
    lemma_match_symmetric(g, e, 0, 0);
}

/// Every pair has equal sides.
pub open spec fn identical_pairs(ps: TokenPairs) -> bool {
    forall|k: int| 0 <= k < ps.len() ==> (#[trigger] ps[k]).0 == ps[k].1
}

/// Walking `s[i..]` alone, every `data-points="` payload met is closed by a
/// `"`, in `s` and, recursively, in each payload that decodes.
pub open spec fn payloads_closed(s: Seq<u8>, i: int) -> bool
    decreases s.len(), s.len() - i,
{
    if i < 0 || i >= s.len() {
        true
    } else if occurs_at(s, i, dp_marker()) {
        proof {
            lemma_find_byte(s, i + 13, 34);
        }
        match find_byte(s, i + 13, 34) {
            None => false,
            Some(q) => {
                let b = s.subrange(i + 13, q);
                proof {
                    lemma_b64_decode_len(b);
                }
                (match b64_decode(b) {
                    Some(d) => payloads_closed(d, 0),
                    None => true,
                }) && payloads_closed(s, q + 1)
            },
        }
    } else {
        proof {
            lemma_num_token_len(s, i);
        }
        let n = spec_num_token_len(s, i);
        if n > 0 {
            payloads_closed(s, i + n)
        } else {
            payloads_closed(s, i + 1)
        }
    }
}

proof fn lemma_prefix_identical(a: TokenPairs, r: Option<TokenPairs>)
    requires
        identical_pairs(a),
    ensures
        (prefix_pairs(a, r) is Some) == (r is Some),
        (r matches Some(rest) && identical_pairs(rest)) ==> (prefix_pairs(a, r) matches Some(ps)
            && identical_pairs(ps)),
        (prefix_pairs(a, r) matches Some(ps) && identical_pairs(ps)) ==> (r matches Some(rest)
            && identical_pairs(rest)),
{
    if let Some(rest) = r {
        let ps = a + rest;
        if identical_pairs(rest) {
            assert forall|k: int| 0 <= k < ps.len() implies (#[trigger] ps[k]).0 == ps[k].1 by {
                if k >= a.len() {
                    assert(ps[k] == rest[k - a.len()]);
                }
            }
        }
        if identical_pairs(ps) {
            assert forall|k: int| 0 <= k < rest.len() implies (#[trigger] rest[k]).0 == rest[k].1 by {
                assert(ps[k + a.len()] == rest[k]);
            }
        }
    }
}

#[verifier::spinoff_prover]
proof fn lemma_match_self(s: Seq<u8>, i: int)
    requires
        0 <= i <= s.len(),
    ensures
        (match_from(s, s, i, i) is Some) == payloads_closed(s, i),
        match_from(s, s, i, i) matches Some(ps) ==> identical_pairs(ps),
    decreases s.len(), s.len() - i,
{
    if i == s.len() {
    } else if occurs_at(s, i, dp_marker()) {
        lemma_find_byte(s, i + 13, 34);
        match find_byte(s, i + 13, 34) {
            None => {},
            Some(q) => {
                let b = s.subrange(i + 13, q);
                lemma_b64_decode_len(b);
                let inner = match (b64_decode(b), b64_decode(b)) {
                    (Some(gd), Some(ed)) => match_from(gd, ed, 0, 0),
                    _ => None,
                };
                if let Some(d) = b64_decode(b) {
                    lemma_match_self(d, 0);
                } else {
                    assert(identical_pairs(Seq::empty()));
                }
                lemma_match_self(s, q + 1);
                if let Some(ps) = payload_outcome(b, b, inner) {
                    lemma_prefix_identical(ps, match_from(s, s, q + 1, q + 1));
                }
            },
        }
    } else {
        lemma_num_token_len(s, i);
        let n = spec_num_token_len(s, i);
        if n > 0 {
            lemma_match_self(s, i + n);
            let pair = (s.subrange(i, i + n), s.subrange(i, i + n));
            assert(identical_pairs(seq![pair]));
            lemma_prefix_identical(seq![pair], match_from(s, s, i + n, i + n));
        } else {
            lemma_match_self(s, i + 1);
        }
    }
}

/// Law (reflexivity): a text matches itself, with every numeric token
/// paired with itself, exactly when every `data-points="` payload it holds
/// is closed by a `"` (in the text and in each payload that decodes).
pub proof fn law_match_reflexive(s: Seq<u8>)
    ensures
        (match_from(s, s, 0, 0) is Some) == payloads_closed(s, 0),
        match_from(s, s, 0, 0) matches Some(ps) ==> identical_pairs(ps),
{
    lemma_match_self(s, 0);
}

/// No byte of `s` is an ASCII digit.
pub open spec fn no_digits(s: Seq<u8>) -> bool {
    forall|k: int| 0 <= k < s.len() ==> !is_digit_b(#[trigger] s[k])
}

/// `s` holds no `data-points="` attribute.
pub open spec fn no_payload(s: Seq<u8>) -> bool {
    forall|i: int| !occurs_at(s, i, dp_marker())
}

proof fn lemma_no_token(s: Seq<u8>, i: int)
    requires
        no_digits(s),
        0 <= i < s.len(),
    ensures
        spec_num_token_len(s, i) == 0,
{
    assert forall|j: int| 0 <= j <= s.len() implies digits_end(s, j) == j by {
        if j < s.len() {
            assert(!is_digit_b(s[j]));
        }
    }
    if i + 2 < s.len() {
        assert(!is_digit_b(s[i + 2]));
    }
    if i + 1 < s.len() {
        assert(!is_digit_b(s[i + 1]));
        assert(digits_end(s, i + 1) == i + 1);
        if s[i + 1] == 46 && i + 2 <= s.len() {
            assert(digits_end(s, i + 2) == i + 2);
        }
    }
    assert(digits_end(s, i) == i);
    if 0 <= i < s.len() && s[i] == 46 && i + 1 <= s.len() {
        assert(digits_end(s, i + 1) == i + 1);
    }
}

proof fn lemma_match_plain(g: Seq<u8>, e: Seq<u8>, gi: int, ei: int)
    requires
        no_digits(g),
        no_digits(e),
        no_payload(g),
        no_payload(e),
        0 <= gi <= g.len(),
        0 <= ei <= e.len(),
    ensures
        match_from(g, e, gi, ei) == if g.skip(gi) == e.skip(ei) {
            Some(Seq::<(Seq<u8>, Seq<u8>)>::empty())
        } else {
            None
        },
    decreases (g.len() - gi) + (e.len() - ei),
{
    if !(gi < g.len() && ei < e.len()) {
        if !(gi == g.len() && ei == e.len()) {
            assert(g.skip(gi).len() != e.skip(ei).len());
        } else {
            assert(g.skip(gi) =~= e.skip(ei));
        }
    } else {
        assert(!occurs_at(g, gi, dp_marker()));
        lemma_no_token(g, gi);
        lemma_no_token(e, ei);
        if g[gi] != e[ei] {
            assert(g.skip(gi)[0] != e.skip(ei)[0]);
        } else {
            lemma_match_plain(g, e, gi + 1, ei + 1);
            if g.skip(gi + 1) == e.skip(ei + 1) {
                assert(g.skip(gi) =~= e.skip(ei)) by {
                    assert(g.skip(gi + 1).len() == e.skip(ei + 1).len());
                    assert(g.skip(gi).len() == e.skip(ei).len());
                    assert forall|k: int| 0 <= k < g.skip(gi).len() implies g.skip(gi)[k] == e.skip(
                        ei,
                    )[k] by {
                        if k > 0 {
                            assert(g.skip(gi)[k] == g.skip(gi + 1)[k - 1]);
                            assert(e.skip(ei)[k] == e.skip(ei + 1)[k - 1]);
                        }
                    }
                }
            } else if g.skip(gi) == e.skip(ei) {
                assert(g.skip(gi + 1) =~= g.skip(gi).skip(1));
                assert(e.skip(ei + 1) =~= e.skip(ei).skip(1));
            }
        }
    }
}

/// Texts without digits and without `data-points` payloads match exactly
/// when they are equal, and then pair no numeric tokens.
pub proof fn law_match_plain_texts(g: Seq<u8>, e: Seq<u8>)
    requires
        no_digits(g),
        no_digits(e),
        no_payload(g),
        no_payload(e),
    ensures
        match_from(g, e, 0, 0) == if g == e {
            Some(Seq::<(Seq<u8>, Seq<u8>)>::empty())
        } else {
            None
        },
{
    lemma_match_plain(g, e, 0, 0);
    assert(g.skip(0) =~= g);
    assert(e.skip(0) =~= e);
}

} // verus!
