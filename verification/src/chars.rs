//! Character-level building blocks shared by the text and markup modules:
//! converting between `&str` and character vectors, and appending to a
//! `String` with the effect stated over its character view.
use vstd::prelude::*;

verus! {

/// Appends one character to `s`; the only trusted item of this module.
/// It calls `String::push` from std, whose documentation says it appends
/// the given `char` to the end of the string.
#[verifier::external_body]
pub(crate) fn push_char(s: &mut String, c: char)
    ensures
        final(s)@ == old(s)@.push(c),
{
    s.push(c)
}

/// Collect the characters of `s` into a vector.
pub fn chars_of(s: &str) -> (v: Vec<char>)
    ensures
        v@ == s@,
{
    let mut v: Vec<char> = Vec::new();
    for c in it: s.chars()
        invariant
            v@ == it.seq().take(it.index() as int),
    {
        v.push(c);
    }
    v
}

/// Append every character of `v` to `out`.
pub fn append_chars(out: &mut String, v: &Vec<char>)
    ensures
        final(out)@ == old(out)@ + v@,
{
    let mut i: usize = 0;
    while i < v.len()
        invariant
            i <= v.len(),
            out@ == old(out)@ + v@.take(i as int),
        decreases v.len() - i,
    {
        push_char(out, v[i]);
        assert(v@.take(i + 1) == v@.take(i as int).push(v@[i as int]));
        i = i + 1;
    }
    assert(v@.take(v.len() as int) == v@);
}

/// Build a `String` whose characters are exactly those of `v`.
pub fn string_from_chars(v: &Vec<char>) -> (s: String)
    ensures
        s@ == v@,
{
    let mut s = String::new();
    append_chars(&mut s, v);
    s
}

/// The characters of `s` from position `a` up to (not including) `b`.
pub fn subvec(s: &Vec<char>, a: usize, b: usize) -> (r: Vec<char>)
    requires
        a <= b <= s.len(),
    ensures
        r@ == s@.subrange(a as int, b as int),
{
    let mut r: Vec<char> = Vec::new();
    let mut i = a;
    while i < b
        invariant
            a <= i <= b <= s.len(),
            r@ == s@.subrange(a as int, i as int),
        decreases b - i,
    {
        r.push(s[i]);
        assert(s@.subrange(a as int, i + 1) == s@.subrange(a as int, i as int).push(s@[i as int]));
        i = i + 1;
    }
    r
}

/// ASCII letter or digit (`char::is_ascii_alphanumeric`).
pub open spec fn is_alnum(c: char) -> bool {
    ('0' <= c && c <= '9') || ('A' <= c && c <= 'Z') || ('a' <= c && c <= 'z')
}

/// Executable form of [`is_alnum`].
pub fn is_ascii_alnum(c: char) -> (r: bool)
    ensures
        r == is_alnum(c),
{
    ('0' <= c && c <= '9') || ('A' <= c && c <= 'Z') || ('a' <= c && c <= 'z')
}

/// Whether two character vectors hold the same characters.
pub fn chars_eq(a: &Vec<char>, b: &Vec<char>) -> (r: bool)
    ensures
        r == (a@ == b@),
{
    if a.len() != b.len() {
        return false;
    }
    let mut i: usize = 0;
    while i < a.len()
        invariant
            i <= a.len(),
            a.len() == b.len(),
            forall|j: int| 0 <= j < i ==> a@[j] == b@[j],
        decreases a.len() - i,
    {
        if a[i] != b[i] {
            return false;
        }
        i = i + 1;
    }
    assert(a@ =~= b@);
    true
}

/// Whether two string slices hold the same characters.
pub fn str_eq(a: &str, b: &str) -> (r: bool)
    ensures
        r == (a@ == b@),
{
    let va = chars_of(a);
    let vb = chars_of(b);
    chars_eq(&va, &vb)
}

/// First position `p >= from` at which `m` occurs in `s` (`str::find`).
pub open spec fn find_sub(s: Seq<char>, from: int, m: Seq<char>) -> Option<int>
    decreases s.len() - from,
{
    if from < 0 || from + m.len() > s.len() {
        None
    } else if m.len() == 0 || s.subrange(from, from + m.len()) == m {
        Some(from)
    } else {
        find_sub(s, from + 1, m)
    }
}

pub proof fn lemma_find_sub(s: Seq<char>, from: int, m: Seq<char>)
    ensures
        find_sub(s, from, m) matches Some(p) ==> from <= p && p + m.len() <= s.len()
            && s.subrange(p, p + m.len()) == m,
    decreases s.len() - from,
{
    if !(from < 0 || from + m.len() > s.len()) {
        if m.len() == 0 {
            assert(s.subrange(from, from) =~= m);
        } else if s.subrange(from, from + m.len()) != m {
            lemma_find_sub(s, from + 1, m);
        }
    }
}

/// Whether `m` occurs in `s` at position `p`.
pub fn matches_at(s: &Vec<char>, p: usize, m: &Vec<char>) -> (r: bool)
    requires
        p + m.len() <= s.len(),
    ensures
        r == (s@.subrange(p as int, p + m.len()) == m@),
{
    let mut j: usize = 0;
    while j < m.len()
        invariant
            j <= m.len(),
            p + m.len() <= s.len(),
            forall|t: int| 0 <= t < j ==> s@[p + t] == m@[t],
        decreases m.len() - j,
    {
        if s[p + j] != m[j] {
            assert(s@.subrange(p as int, p + m.len())[j as int] != m@[j as int]);
            return false;
        }
        j = j + 1;
    }
    assert(s@.subrange(p as int, p + m.len()) =~= m@);
    true
}

/// Executable form of [`find_sub`].
pub fn find_sub_exec(s: &Vec<char>, from: usize, m: &Vec<char>) -> (r: Option<usize>)
    ensures
        r matches Some(p) ==> find_sub(s@, from as int, m@) == Some(p as int),
        r is None ==> find_sub(s@, from as int, m@) is None,
{
    let n = s.len();
    if m.len() > n {
        return None;
    }
    let mut p = from;
    while p <= n - m.len()
        invariant
            from <= p,
            n == s.len(),
            m.len() <= n,
            find_sub(s@, from as int, m@) == find_sub(s@, p as int, m@),
        decreases n - p,
    {
        if m.len() == 0 || matches_at(s, p, m) {
            return Some(p);
        }
        p = p + 1;
    }
    None
}

/// Unicode `White_Space` (what `char::is_whitespace` and `str::trim` test).
pub open spec fn is_white(c: char) -> bool {
    ||| ('\u{9}' <= c && c <= '\u{D}')
    ||| c == ' '
    ||| c == '\u{85}'
    ||| c == '\u{A0}'
    ||| c == '\u{1680}'
    ||| ('\u{2000}' <= c && c <= '\u{200A}')
    ||| c == '\u{2028}'
    ||| c == '\u{2029}'
    ||| c == '\u{202F}'
    ||| c == '\u{205F}'
    ||| c == '\u{3000}'
}

/// Executable form of [`is_white`].
pub fn is_white_exec(c: char) -> (r: bool)
    ensures
        r == is_white(c),
{
    ('\u{9}' <= c && c <= '\u{D}') || c == ' ' || c == '\u{85}' || c == '\u{A0}' || c == '\u{1680}'
        || ('\u{2000}' <= c && c <= '\u{200A}') || c == '\u{2028}' || c == '\u{2029}' || c
        == '\u{202F}' || c == '\u{205F}' || c == '\u{3000}'
}

/// `s` without its leading whitespace.
pub open spec fn trim_start(s: Seq<char>) -> Seq<char>
    decreases s.len(),
{
    if s.len() > 0 && is_white(s[0]) {
        trim_start(s.drop_first())
    } else {
        s
    }
}

/// `s` without its trailing whitespace.
pub open spec fn trim_end(s: Seq<char>) -> Seq<char>
    decreases s.len(),
{
    if s.len() > 0 && is_white(s.last()) {
        trim_end(s.drop_last())
    } else {
        s
    }
}

/// `s` without leading and trailing whitespace (`str::trim`).
pub open spec fn trim(s: Seq<char>) -> Seq<char> {
    trim_end(trim_start(s))
}

/// The characters of `s` with leading and trailing whitespace removed.
pub fn trim_chars(s: &Vec<char>) -> (r: Vec<char>)
    ensures
        r@ == trim(s@),
{
    let mut a: usize = 0;
    assert(s@.skip(0) == s@);
    while a < s.len() && is_white_exec(s[a])
        invariant
            a <= s.len(),
            trim_start(s@) == trim_start(s@.skip(a as int)),
        decreases s.len() - a,
    {
        assert(s@.skip(a as int).drop_first() == s@.skip(a + 1));
        a = a + 1;
    }
    let ghost t = s@.skip(a as int);
    assert(trim_start(s@) == t) by {
        if t.len() > 0 {
            assert(t[0] == s@[a as int]);
        }
    }
    let mut b: usize = s.len();
    while b > a && is_white_exec(s[b - 1])
        invariant
            a <= b <= s.len(),
            t == s@.skip(a as int),
            trim_end(t) == trim_end(s@.subrange(a as int, b as int)),
        decreases b,
    {
        assert(s@.subrange(a as int, b as int).drop_last() == s@.subrange(a as int, b - 1));
        b = b - 1;
    }
    assert(t == s@.subrange(a as int, s.len() as int));
    let ghost u = s@.subrange(a as int, b as int);
    assert(trim_end(u) == u) by {
        if u.len() > 0 {
            assert(u.last() == s@[b - 1]);
        }
    }
    subvec(s, a, b)
}

/// First index of `c` in `s`.
pub open spec fn char_pos(s: Seq<char>, c: char) -> Option<int>
    decreases s.len(),
{
    if s.len() == 0 {
        None
    } else if s[0] == c {
        Some(0)
    } else {
        match char_pos(s.drop_first(), c) {
            Some(p) => Some(p + 1),
            None => None,
        }
    }
}

pub proof fn lemma_char_pos(s: Seq<char>, c: char)
    ensures
        char_pos(s, c) matches Some(p) ==> 0 <= p < s.len() && s[p] == c && forall|q: int|
            0 <= q < p ==> s[q] != c,
        char_pos(s, c) is None ==> forall|q: int| 0 <= q < s.len() ==> s[q] != c,
    decreases s.len(),
{
    if s.len() > 0 && s[0] != c {
        lemma_char_pos(s.drop_first(), c);
        assert forall|q: int| 0 < q < s.len() implies s[q] == s.drop_first()[q - 1] by {}
    }
}

/// Executable form of [`char_pos`].
pub fn char_pos_exec(s: &Vec<char>, c: char) -> (r: Option<usize>)
    ensures
        r matches Some(p) ==> char_pos(s@, c) == Some(p as int),
        r is None ==> char_pos(s@, c) is None,
{
    proof {
        lemma_char_pos(s@, c);
    }
    let mut i: usize = 0;
    while i < s.len()
        invariant
            i <= s.len(),
            forall|q: int| 0 <= q < i ==> s@[q] != c,
            char_pos(s@, c) matches Some(p) ==> 0 <= p < s.len() && s@[p] == c && forall|q: int|
                0 <= q < p ==> s@[q] != c,
            char_pos(s@, c) is None ==> forall|q: int| 0 <= q < s.len() ==> s@[q] != c,
        decreases s.len() - i,
    {
        if s[i] == c {
            return Some(i);
        }
        i = i + 1;
    }
    None
}

/// The pieces of `s` between occurrences of `c` (`str::split(c)`): one more
/// piece than there are occurrences.
pub open spec fn split_char(s: Seq<char>, c: char) -> Seq<Seq<char>>
    decreases s.len(),
{
    match char_pos(s, c) {
        None => seq![s],
        Some(p) => {
            proof {
                lemma_char_pos(s, c);
            }
            seq![s.take(p)] + split_char(s.skip(p + 1), c)
        },
    }
}

/// Executable form of [`split_char`].
pub fn split_chars(s: &Vec<char>, c: char) -> (r: Vec<Vec<char>>)
    ensures
        r@.map_values(|v: Vec<char>| v@) == split_char(s@, c),
    decreases s.len(),
{
    proof {
        lemma_char_pos(s@, c);
    }
    match char_pos_exec(s, c) {
        None => {
            let mut r: Vec<Vec<char>> = Vec::new();
            r.push(subvec(s, 0, s.len()));
            assert(s@.subrange(0, s.len() as int) == s@);
            assert(r@.map_values(|v: Vec<char>| v@) =~= seq![s@]);
            r
        },
        Some(p) => {
            let head = subvec(s, 0, p);
            let tail = subvec(s, p + 1, s.len());
            assert(tail@ == s@.skip(p + 1));
            let rest = split_chars(&tail, c);
            let mut r: Vec<Vec<char>> = Vec::new();
            r.push(head);
            let ghost rv = rest@;
            let mut rest = rest;
            r.append(&mut rest);
            assert(r@.map_values(|v: Vec<char>| v@) =~= seq![s@.take(p as int)] + rv.map_values(
                |v: Vec<char>| v@,
            ));
            r
        },
    }
}

/// Decimal digits of `n` (what `to_string` prints for an unsigned integer).
pub open spec fn decimal(n: nat) -> Seq<char>
    decreases n,
{
    if n < 10 {
        seq![(48 + n) as char]
    } else {
        decimal(n / 10) + seq![(48 + n % 10) as char]
    }
}

/// Appends the decimal digits of `n` to `out`.
pub fn append_decimal(out: &mut String, n: u64)
    ensures
        final(out)@ == old(out)@ + decimal(n as nat),
    decreases n,
{
    if n >= 10 {
        append_decimal(out, n / 10);
    }
    let d = (n % 10) as u8;
    push_char(out, (48 + d) as char);
}

/// Decimal text of a signed integer (what `to_string` prints).
pub open spec fn int_text(n: int) -> Seq<char> {
    if n < 0 {
        seq!['-'] + decimal((-n) as nat)
    } else {
        decimal(n as nat)
    }
}

/// Appends the decimal text of the signed integer `n` to `out`.
pub fn append_int(out: &mut String, n: i64)
    ensures
        final(out)@ == old(out)@ + int_text(n as int),
{
    if n < 0 {
        push_char(out, '-');
        let m: u64 = (-(n + 1)) as u64 + 1;
        append_decimal(out, m);
    } else {
        append_decimal(out, n as u64);
    }
}

/// `s[i..]` with every non-overlapping occurrence of `m`, scanning left to
/// right, replaced by `r` (what `str::replace` does for a non-empty `m`).
pub open spec fn replace_from(s: Seq<char>, i: int, m: Seq<char>, r: Seq<char>) -> Seq<char>
    decreases s.len() - i,
{
    if i < 0 || i >= s.len() {
        Seq::empty()
    } else if m.len() > 0 && i + m.len() <= s.len() && s.subrange(i, i + m.len()) == m {
        r + replace_from(s, i + m.len(), m, r)
    } else {
        seq![s[i]] + replace_from(s, i + 1, m, r)
    }
}

/// `s` with every occurrence of `m` replaced by `r`.
pub open spec fn replace_all(s: Seq<char>, m: Seq<char>, r: Seq<char>) -> Seq<char> {
    replace_from(s, 0, m, r)
}

/// Executable form of [`replace_all`] on strings (`str::replace` with a
/// non-empty pattern).
pub fn replace_str(s: &str, m: &str, r: &str) -> (out: String)
    requires
        m@.len() > 0,
    ensures
        out@ == replace_all(s@, m@, r@),
{
    let v = chars_of(s);
    let mv = chars_of(m);
    let n = v.len();
    let mut out = String::new();
    let mut i: usize = 0;
    while i < n
        invariant
            i <= n,
            n == v.len(),
            v@ == s@,
            mv@ == m@,
            mv@.len() > 0,
            replace_all(v@, mv@, r@) == out@ + replace_from(v@, i as int, mv@, r@),
        decreases n - i,
    {
        let ghost before = out@;
        if mv.len() <= n - i && matches_at(&v, i, &mv) {
            out.append(r);
            i = i + mv.len();
        } else {
            push_char(&mut out, v[i]);
            assert(out@ == before + seq![v@[i as int]]);
            i = i + 1;
        }
    }
    out
}

/// `s` with every trailing `c` removed (`str::trim_end_matches(c)`).
pub open spec fn trim_end_char(s: Seq<char>, c: char) -> Seq<char>
    decreases s.len(),
{
    if s.len() > 0 && s.last() == c {
        trim_end_char(s.drop_last(), c)
    } else {
        s
    }
}

/// Executable form of [`trim_end_char`].
pub fn trim_end_char_exec(s: &Vec<char>, c: char) -> (r: Vec<char>)
    ensures
        r@ == trim_end_char(s@, c),
{
    let mut b: usize = s.len();
    assert(s@.subrange(0, b as int) == s@);
    while b > 0 && s[b - 1] == c
        invariant
            b <= s.len(),
            trim_end_char(s@, c) == trim_end_char(s@.subrange(0, b as int), c),
        decreases b,
    {
        assert(s@.subrange(0, b as int).drop_last() == s@.subrange(0, b - 1));
        b = b - 1;
    }
    let ghost u = s@.subrange(0, b as int);
    assert(trim_end_char(u, c) == u) by {
        if u.len() > 0 {
            assert(u.last() == s@[b - 1]);
        }
    }
    subvec(s, 0, b)
}

/// The pieces joined with `sep` between consecutive pieces (`join`).
pub open spec fn join(parts: Seq<Seq<char>>, sep: Seq<char>) -> Seq<char>
    decreases parts.len(),
{
    if parts.len() == 0 {
        Seq::empty()
    } else if parts.len() == 1 {
        parts[0]
    } else {
        join(parts.drop_last(), sep) + sep + parts.last()
    }
}

/// Appends `piece` to a `sep`-joined list held in `out`, `count` pieces long
/// so far.
pub fn push_joined(out: &mut String, count: usize, sep: &str, piece: &str)
    ensures
        count == 0 ==> final(out)@ == old(out)@ + piece@,
        count > 0 ==> final(out)@ == old(out)@ + sep@ + piece@,
{
    if count > 0 {
        out.append(sep);
    }
    out.append(piece);
}

pub proof fn lemma_join_push(parts: Seq<Seq<char>>, sep: Seq<char>, p: Seq<char>)
    ensures
        join(parts.push(p), sep) == if parts.len() == 0 {
            p
        } else {
            join(parts, sep) + sep + p
        },
{
    assert(parts.push(p).drop_last() == parts);
}

} // verus!
