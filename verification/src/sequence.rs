//! Text helpers of the sequence-diagram renderer: `<br>` splitting, the
//! `#name;` entity placeholders (for measuring and for output), XML text and
//! attribute escaping, popup toggles, and the renumbering of the stick-figure
//! body ids.
use vstd::prelude::*;
use vstd::utf8::encode_utf8;
use crate::chars::{
    append_chars, append_decimal, chars_of, decimal, is_alnum, is_ascii_alnum, push_char,
    string_from_chars, subvec,
};

verus! {

// ---------------------------------------------------------------------------
// UTF-8 lead bytes
// ---------------------------------------------------------------------------

/// Byte length of the UTF-8 sequence a lead byte opens; 1 for ASCII and for
/// continuation bytes, so a scan always moves forward.
pub open spec fn spec_utf8_char_len(b: u8) -> usize {
    if b < 0x80 {
        1
    } else if b < 0xC0 {
        1
    } else if b < 0xE0 {
        2
    } else if b < 0xF0 {
        3
    } else {
        4
    }
}

/// UTF-8 leading-byte → byte length lookup. Defaults to 1 for invalid
/// leads so a scan always makes forward progress.
pub fn utf8_char_len(b: u8) -> (r: usize)
    ensures
        r == spec_utf8_char_len(b),
{
    if b < 0x80 {
        1
    } else if b < 0xC0 {
        1
    } else if b < 0xE0 {
        2
    } else if b < 0xF0 {
        3
    } else {
        4
    }
}

// ---------------------------------------------------------------------------
// `<br>` splitting
// ---------------------------------------------------------------------------

/// First position at or after `j` that is not a space or tab.
pub open spec fn skip_blanks(s: Seq<char>, j: int) -> int
    decreases s.len() - j,
{
    if 0 <= j < s.len() && (s[j] == ' ' || s[j] == '\t') {
        skip_blanks(s, j + 1)
    } else {
        j
    }
}

/// When a `<br>` tag (`<br`, blanks, optional `/`, blanks, `>`, case of `br`
/// ignored) starts at `i`, the position of its `>`.
pub open spec fn br_tag_end(s: Seq<char>, i: int) -> Option<int> {
    if 0 <= i && i + 3 <= s.len() && s[i] == '<' && (s[i + 1] == 'b' || s[i + 1] == 'B') && (s[i
        + 2] == 'r' || s[i + 2] == 'R') {
        let j = skip_blanks(s, i + 3);
        let j2 = if j < s.len() && s[j] == '/' {
            j + 1
        } else {
            j
        };
        let j3 = skip_blanks(s, j2);
        if j3 < s.len() && s[j3] == '>' {
            Some(j3)
        } else {
            None
        }
    } else {
        None
    }
}

pub proof fn lemma_skip_blanks(s: Seq<char>, j: int)
    requires
        0 <= j <= s.len(),
    ensures
        j <= skip_blanks(s, j) <= s.len(),
    decreases s.len() - j,
{
    if 0 <= j < s.len() && (s[j] == ' ' || s[j] == '\t') {
        lemma_skip_blanks(s, j + 1);
    }
}

pub proof fn lemma_br_tag_end(s: Seq<char>, i: int)
    ensures
        br_tag_end(s, i) matches Some(j) ==> i + 3 <= j < s.len(),
{
    if 0 <= i && i + 3 <= s.len() {
        lemma_skip_blanks(s, i + 3);
        let j = skip_blanks(s, i + 3);
        let j2 = if j < s.len() && s[j] == '/' {
            j + 1
        } else {
            j
        };
        lemma_skip_blanks(s, j2);
    }
}

/// Segments of `s` from `start`, scanning for `<br>` tags from `i`.
pub open spec fn br_split_from(s: Seq<char>, start: int, i: int) -> Seq<Seq<char>>
    decreases s.len() - i,
{
    if i < 0 || i + 3 > s.len() {
        seq![s.subrange(start, s.len() as int)]
    } else {
        proof {
            lemma_br_tag_end(s, i);
        }
        match br_tag_end(s, i) {
            Some(j) => seq![s.subrange(start, i)] + br_split_from(s, j + 1, j + 1),
            None => br_split_from(s, start, i + 1),
        }
    }
}

/// The text between `<br>` tags.
pub open spec fn br_split(s: Seq<char>) -> Seq<Seq<char>> {
    br_split_from(s, 0, 0)
}

fn skip_blanks_exec(s: &Vec<char>, j: usize) -> (r: usize)
    requires
        j <= s.len(),
    ensures
        r == skip_blanks(s@, j as int),
{
    let mut k = j;
    while k < s.len() && (s[k] == ' ' || s[k] == '\t')
        invariant
            j <= k <= s.len(),
            skip_blanks(s@, j as int) == skip_blanks(s@, k as int),
        decreases s.len() - k,
    {
        k = k + 1;
    }
    k
}

fn br_tag_end_exec(s: &Vec<char>, i: usize) -> (r: Option<usize>)
    requires
        i + 3 <= s.len(),
    ensures
        r matches Some(j) ==> br_tag_end(s@, i as int) == Some(j as int),
        r is None ==> br_tag_end(s@, i as int) is None,
{
    proof {
        lemma_br_tag_end(s@, i as int);
        lemma_skip_blanks(s@, i + 3);
    }
    if s[i] == '<' && (s[i + 1] == 'b' || s[i + 1] == 'B') && (s[i + 2] == 'r' || s[i + 2] == 'R') {
        let j = skip_blanks_exec(s, i + 3);
        let j2 = if j < s.len() && s[j] == '/' {
            j + 1
        } else {
            j
        };
        proof {
            lemma_skip_blanks(s@, j2 as int);
        }
        let j3 = skip_blanks_exec(s, j2);
        if j3 < s.len() && s[j3] == '>' {
            Some(j3)
        } else {
            None
        }
    } else {
        None
    }
}

/// The views of a list of strings.
pub open spec fn strings_view(v: Seq<String>) -> Seq<Seq<char>> {
    v.map_values(|x: String| x@)
}

/// Split a string on `<br>` / `<br/>` / `<br />` (case-insensitive, any
/// spaces or tabs inside the tag), the regex `/<br\s*\/?>/gi` restricted to
/// spaces and tabs.
pub fn split_br(s: &str) -> (r: Vec<String>)
    ensures
        strings_view(r@) == br_split(s@),
{
    let v = chars_of(s);
    let n = v.len();
    let mut out: Vec<String> = Vec::new();
    let mut start: usize = 0;
    let mut i: usize = 0;
    while n >= 3 && i <= n - 3
        invariant
            start <= i <= n,
            n == v.len(),
            v@ == s@,
            br_split(v@) == strings_view(out@) + br_split_from(v@, start as int, i as int),
        decreases n - i,
    {
        proof {
            lemma_br_tag_end(v@, i as int);
        }
        match br_tag_end_exec(&v, i) {
            Some(j) => {
                let seg = subvec(&v, start, i);
                let ghost before = out@;
                out.push(string_from_chars(&seg));
                assert(strings_view(out@) =~= strings_view(before) + seq![v@.subrange(start as int, i as int)]);
                start = j + 1;
                i = j + 1;
            },
            None => {
                i = i + 1;
            },
        }
    }
    let seg = subvec(&v, start, n);
    let ghost before = out@;
    out.push(string_from_chars(&seg));
    assert(strings_view(out@) =~= strings_view(before) + seq![v@.subrange(start as int, n as int)]);
    out
}

// ---------------------------------------------------------------------------
// `#name;` entity placeholders
// ---------------------------------------------------------------------------

/// Scanning an entity name from `j`: the position of the closing `;`, or
/// `None` when a character other than an ASCII letter, digit or `_` comes
/// first or the text ends.
pub open spec fn entity_name_end(s: Seq<char>, j: int) -> Option<int>
    decreases s.len() - j,
{
    if j < 0 || j >= s.len() {
        None
    } else if s[j] == ';' {
        Some(j)
    } else if !(is_alnum(s[j]) || s[j] == '_') {
        None
    } else {
        entity_name_end(s, j + 1)
    }
}

pub proof fn lemma_entity_name_end(s: Seq<char>, j: int)
    ensures
        entity_name_end(s, j) matches Some(e) ==> j <= e < s.len() && s[e] == ';' && forall|k: int|
            j <= k < e ==> is_alnum(#[trigger] s[k]) || s[k] == '_',
    decreases s.len() - j,
{
    if !(j < 0 || j >= s.len()) && s[j] != ';' && (is_alnum(s[j]) || s[j] == '_') {
        lemma_entity_name_end(s, j + 1);
    }
}

/// Every character of `s` is an ASCII digit.
pub open spec fn all_digits(s: Seq<char>) -> bool {
    forall|k: int| 0 <= k < s.len() ==> '0' <= #[trigger] s[k] && s[k] <= '9'
}

/// The `#name;` placeholder starting at `i`, if any: its rendered form
/// (`&name;`, or `&#NNN;` for a numeric name) and the position after `;`.
pub open spec fn hash_entity(s: Seq<char>, i: int) -> Option<(Seq<char>, int)> {
    if i < 0 || i >= s.len() || s[i] != '#' {
        None
    } else {
        match entity_name_end(s, i + 1) {
            None => None,
            Some(end) => if end == i + 1 {
                None
            } else {
                let name = s.subrange(i + 1, end);
                let rep = if all_digits(name) {
                    "&#"@ + name + ";"@
                } else {
                    "&"@ + name + ";"@
                };
                Some((rep, end + 1))
            },
        }
    }
}

fn all_digits_exec(s: &Vec<char>) -> (r: bool)
    ensures
        r == all_digits(s@),
{
    let mut k: usize = 0;
    while k < s.len()
        invariant
            k <= s.len(),
            forall|t: int| 0 <= t < k ==> '0' <= #[trigger] s@[t] && s@[t] <= '9',
        decreases s.len() - k,
    {
        if !('0' <= s[k] && s[k] <= '9') {
            return false;
        }
        k = k + 1;
    }
    true
}

/// Character-level form of [`try_consume_hash_entity`]: the `#name;`
/// placeholder at character `i`, its replacement and the position after
/// the `;`.
fn hash_entity_chars(s: &Vec<char>, i: usize) -> (r: Option<(String, usize)>)
    ensures
        r matches Some(x) ==> hash_entity(s@, i as int) == Some((x.0@, x.1 as int)),
        r is None ==> hash_entity(s@, i as int) is None,
{
    if i >= s.len() || s[i] != '#' {
        return None;
    }
    let start = i + 1;
    let mut end = start;
    while end < s.len() && s[end] != ';'
        invariant
            i < s.len(),
            s@[i as int] == '#',
            start == i + 1,
            start <= end <= s.len(),
            entity_name_end(s@, start as int) == entity_name_end(s@, end as int),
        decreases s.len() - end,
    {
        let c = s[end];
        if !is_ascii_alnum(c) && c != '_' {
            return None;
        }
        end = end + 1;
    }
    if end >= s.len() || end == start {
        return None;
    }
    let name = subvec(s, start, end);
    let mut rep = String::new();
    if all_digits_exec(&name) {
        rep.append("&#");
    } else {
        rep.append("&");
    }
    append_chars(&mut rep, &name);
    rep.append(";");
    Some((rep, end + 1))
}

/// The escaped form of `s[i..]`: `&`, `<`, `>` (and `"` when `attr`) become
/// entities, `#name;` placeholders become `&name;` / `&#NNN;`, everything
/// else is copied.
pub open spec fn escape_from(s: Seq<char>, i: int, attr: bool) -> Seq<char>
    decreases s.len() - i,
{
    if i < 0 || i >= s.len() {
        Seq::empty()
    } else {
        let c = s[i];
        if c == '&' {
            "&amp;"@ + escape_from(s, i + 1, attr)
        } else if c == '<' {
            "&lt;"@ + escape_from(s, i + 1, attr)
        } else if c == '>' {
            "&gt;"@ + escape_from(s, i + 1, attr)
        } else if attr && c == '"' {
            "&quot;"@ + escape_from(s, i + 1, attr)
        } else if c == '#' {
            proof {
                lemma_entity_name_end(s, i + 1);
            }
            match hash_entity(s, i) {
                Some((rep, next)) => rep + escape_from(s, next, attr),
                None => seq!['#'] + escape_from(s, i + 1, attr),
            }
        } else {
            seq![c] + escape_from(s, i + 1, attr)
        }
    }
}

fn escape_impl(s: &str, attr: bool) -> (r: String)
    ensures
        r@ == escape_from(s@, 0, attr),
{
    let v = chars_of(s);
    let mut out = String::new();
    let mut i: usize = 0;
    while i < v.len()
        invariant
            i <= v.len(),
            v@ == s@,
            escape_from(v@, 0, attr) == out@ + escape_from(v@, i as int, attr),
        decreases v.len() - i,
    {
        let c = v[i];
        let ghost before = out@;
        if c == '&' {
            out.append("&amp;");
            i = i + 1;
        } else if c == '<' {
            out.append("&lt;");
            i = i + 1;
        } else if c == '>' {
            out.append("&gt;");
            i = i + 1;
        } else if attr && c == '"' {
            out.append("&quot;");
            i = i + 1;
        } else if c == '#' {
            proof {
                lemma_entity_name_end(v@, i + 1);
            }
            match hash_entity_chars(&v, i) {
                Some((rep, next)) => {
                    out.append(rep.as_str());
                    i = next;
                },
                None => {
                    push_char(&mut out, '#');
                    i = i + 1;
                },
            }
        } else {
            push_char(&mut out, c);
            i = i + 1;
        }
    }
    out
}

/// Escape element text: `&`, `<`, `>` become entities and `#name;`
/// placeholders become `&name;` (`&#NNN;` for numeric names).
pub fn xml_escape(s: &str) -> (r: String)
    ensures
        r@ == escape_from(s@, 0, false),
{
    escape_impl(s, false)
}

/// Escape an attribute value: as [`xml_escape`], and `"` becomes `&quot;`.
pub fn attr_escape(s: &str) -> (r: String)
    ensures
        r@ == escape_from(s@, 0, true),
{
    escape_impl(s, true)
}

// ---------------------------------------------------------------------------
// Entity placeholders in the form used for measuring
// ---------------------------------------------------------------------------

/// An ASCII letter, digit or `_`.
pub open spec fn is_word_byte(b: u8) -> bool {
    (48 <= b && b <= 57) || (65 <= b && b <= 90) || (97 <= b && b <= 122) || b == 95
}

/// Byte form of [`entity_name_end`]: scanning a name from `j`, the position
/// of the closing `;` (byte 59), or `None` when a non-word byte comes first
/// or the bytes end.
pub open spec fn byte_name_end(b: Seq<u8>, j: int) -> Option<int>
    decreases b.len() - j,
{
    if j < 0 || j >= b.len() {
        None
    } else if b[j] == 59 {
        Some(j)
    } else if !is_word_byte(b[j]) {
        None
    } else {
        byte_name_end(b, j + 1)
    }
}

pub proof fn lemma_byte_name_end(b: Seq<u8>, j: int)
    ensures
        byte_name_end(b, j) matches Some(e) ==> j <= e < b.len() && b[e] == 59 && forall|k: int|
            j <= k < e ==> is_word_byte(#[trigger] b[k]),
    decreases b.len() - j,
{
    if !(j < 0 || j >= b.len()) && b[j] != 59 && is_word_byte(b[j]) {
        lemma_byte_name_end(b, j + 1);
    }
}

/// Every byte is an ASCII digit.
pub open spec fn all_digit_bytes(b: Seq<u8>) -> bool {
    forall|k: int| 0 <= k < b.len() ==> 48 <= #[trigger] b[k] && b[k] <= 57
}

/// Each byte read as the character of the same number (Latin-1).
pub open spec fn latin1(b: Seq<u8>) -> Seq<char> {
    b.map_values(|x: u8| x as char)
}

/// The `#name;` placeholder at byte `i`, if any: the name, whether it is all
/// digits, and the position after the `;`.
pub open spec fn entity_name_at(b: Seq<u8>, i: int) -> Option<(Seq<u8>, bool, int)> {
    if i < 0 || i >= b.len() || b[i] != 35 {
        None
    } else {
        match byte_name_end(b, i + 1) {
            None => None,
            Some(end) => if end == i + 1 {
                None
            } else {
                let name = b.subrange(i + 1, end);
                Some((name, all_digit_bytes(name), end + 1))
            },
        }
    }
}

/// The measuring form of one placeholder: `ﬂ°name¶ß`, with a second `°`
/// for a numeric name.
pub open spec fn measure_marker(name: Seq<u8>, numeric: bool) -> Seq<char> {
    seq!['\u{FB02}', '\u{B0}'] + (if numeric {
        seq!['\u{B0}']
    } else {
        Seq::<char>::empty()
    }) + latin1(name) + seq!['\u{B6}', '\u{DF}']
}

/// The measuring form of the bytes `b[i..]`: placeholders become markers,
/// every other byte is read as a Latin-1 character.
pub open spec fn measure_from(b: Seq<u8>, i: int) -> Seq<char>
    decreases b.len() - i,
{
    if i < 0 || i >= b.len() {
        Seq::empty()
    } else {
        proof {
            lemma_byte_name_end(b, i + 1);
        }
        match entity_name_at(b, i) {
            Some((name, numeric, next)) => measure_marker(name, numeric) + measure_from(b, next),
            None => seq![b[i] as char] + measure_from(b, i + 1),
        }
    }
}

fn all_digit_bytes_exec(b: &Vec<u8>) -> (r: bool)
    ensures
        r == all_digit_bytes(b@),
{
    let mut k: usize = 0;
    while k < b.len()
        invariant
            k <= b.len(),
            forall|t: int| 0 <= t < k ==> 48 <= #[trigger] b@[t] && b@[t] <= 57,
        decreases b.len() - k,
    {
        if !(48 <= b[k] && b[k] <= 57) {
            return false;
        }
        k = k + 1;
    }
    true
}

/// Like [`try_consume_hash_entity`], at byte level, returning the inner name,
/// whether it is numeric, and the position after the `;`.
pub fn try_consume_hash_entity_name(bytes: &[u8], i: usize) -> (r: Option<(String, bool, usize)>)
    ensures
        r matches Some(x) ==> entity_name_at(bytes@, i as int) matches Some(e) && x.0@ == latin1(
            e.0,
        ) && x.1 == e.1 && x.2 == e.2,
        r is None ==> entity_name_at(bytes@, i as int) is None,
{
    if i >= bytes.len() || bytes[i] != 35 {
        return None;
    }
    let start = i + 1;
    let mut end = start;
    while end < bytes.len() && bytes[end] != 59
        invariant
            i < bytes.len(),
            bytes@[i as int] == 35,
            start == i + 1,
            start <= end <= bytes.len(),
            byte_name_end(bytes@, start as int) == byte_name_end(bytes@, end as int),
        decreases bytes.len() - end,
    {
        let b = bytes[end];
        if !((48 <= b && b <= 57) || (65 <= b && b <= 90) || (97 <= b && b <= 122) || b == 95) {
            return None;
        }
        end = end + 1;
    }
    if end >= bytes.len() || end == start {
        return None;
    }
    let mut name_bytes: Vec<u8> = Vec::new();
    let mut name = String::new();
    let mut k = start;
    while k < end
        invariant
            start <= k <= end,
            end <= bytes.len(),
            name_bytes@ == bytes@.subrange(start as int, k as int),
            name@ == latin1(name_bytes@),
        decreases end - k,
    {
        let ghost before = name_bytes@;
        name_bytes.push(bytes[k]);
        push_char(&mut name, bytes[k] as char);
        assert(name_bytes@ =~= bytes@.subrange(start as int, k + 1));
        assert(latin1(name_bytes@) =~= latin1(before).push(bytes@[k as int] as char));
        k = k + 1;
    }
    let numeric = all_digit_bytes_exec(&name_bytes);
    Some((name, numeric, end + 1))
}

/// Rewrite `#word;` / `#NNN;` placeholders into the intermediate form that
/// text is measured in: `ﬂ°word¶ß`, or `ﬂ°°NNN¶ß` for a numeric name. Every
/// other byte of the UTF-8 encoding is copied as the Latin-1 character of
/// the same number.
pub fn resolve_hash_entities_for_measure(s: &str) -> (r: String)
    ensures
        r@ == measure_from(encode_utf8(s@), 0),
{
    let bytes = s.as_bytes();
    let mut out = String::new();
    let mut i: usize = 0;
    while i < bytes.len()
        invariant
            i <= bytes.len(),
            bytes@ == encode_utf8(s@),
            measure_from(bytes@, 0) == out@ + measure_from(bytes@, i as int),
        decreases bytes.len() - i,
    {
        let ghost before = out@;
        proof {
            lemma_byte_name_end(bytes@, i + 1);
        }
        if bytes[i] == 35 {
            match try_consume_hash_entity_name(bytes, i) {
                Some((name, numeric, next)) => {
                    push_char(&mut out, '\u{FB02}');
                    push_char(&mut out, '\u{B0}');
                    if numeric {
                        push_char(&mut out, '\u{B0}');
                    }
                    out.append(name.as_str());
                    push_char(&mut out, '\u{B6}');
                    push_char(&mut out, '\u{DF}');
                    assert(out@ =~= before + measure_marker(
                        bytes@.subrange(i + 1, next - 1),
                        numeric,
                    ));
                    i = next;
                    continue;
                },
                None => {},
            }
        }
        push_char(&mut out, bytes[i] as char);
        assert(out@ =~= before + seq![bytes@[i as int] as char]);
        i = i + 1;
    }
    out
}

// ---------------------------------------------------------------------------
// Popup toggles, stick-figure ids, placeholder output
// ---------------------------------------------------------------------------

/// The opening tag that makes a click on an actor toggle its popup menu.
pub open spec fn popup_g_open(rank: nat) -> Seq<char> {
    "<g onclick=\"var pu = document.getElementById('actor"@ + decimal(rank)
        + "_popup'); if (pu != null) { pu.style.display = pu.style.display == 'block' ? 'none' : 'block'; }\" cursor=\"pointer\">"@
}

/// Append the opening `<g onclick=...>` that toggles the popup of the actor
/// of the given rank.
pub fn push_popup_g_open(out: &mut String, rank: usize)
    ensures
        final(out)@ == old(out)@ + popup_g_open(rank as nat),
{
    out.append("<g onclick=\"var pu = document.getElementById('actor");
    append_decimal(out, rank as u64);
    out.append(
        "_popup'); if (pu != null) { pu.style.display = pu.style.display == 'block' ? 'none' : 'block'; }\" cursor=\"pointer\">",
    );
}

/// How many of the first `i` actors are drawn as stick figures.
pub open spec fn stick_count(sticks: Seq<bool>, i: int) -> nat
    decreases i,
{
    if i <= 0 || sticks.len() == 0 {
        0
    } else if i > sticks.len() {
        stick_count(sticks, sticks.len() as int)
    } else {
        stick_count(sticks, i - 1) + if sticks[i - 1] {
            1nat
        } else {
            0nat
        }
    }
}

pub proof fn lemma_stick_count_bound(sticks: Seq<bool>, i: int)
    requires
        0 <= i <= sticks.len(),
    ensures
        stick_count(sticks, i) <= i,
    decreases i,
{
    if i > 0 {
        lemma_stick_count_bound(sticks, i - 1);
    }
}

/// The (torso, arms) ids of the top body of actor `i`: stick figures are
/// numbered in declaration order, two ids each; other actors get `(0, 0)`.
pub open spec fn top_stick_id(sticks: Seq<bool>, i: int) -> (nat, nat) {
    if sticks[i] {
        (2 * stick_count(sticks, i), 2 * stick_count(sticks, i) + 1)
    } else {
        (0, 0)
    }
}

/// The (torso, arms) ids shared by every bottom body. The bottom bodies all
/// carry the raw number `n_total`: when the actor of that rank (`n_total - 1`)
/// is a stick figure they reuse its top ids, otherwise they take the next
/// fresh pair after the top bodies.
pub open spec fn bottom_stick_pair(sticks: Seq<bool>, n_total: int) -> (nat, nat) {
    if 1 <= n_total <= sticks.len() && sticks[n_total - 1] {
        top_stick_id(sticks, n_total - 1)
    } else {
        let k = stick_count(sticks, sticks.len() as int);
        (2 * k, 2 * k + 1)
    }
}

/// The (torso, arms) ids of the bottom body of actor `i`.
pub open spec fn bottom_stick_id(sticks: Seq<bool>, n_total: int, i: int) -> (nat, nat) {
    if sticks[i] {
        bottom_stick_pair(sticks, n_total)
    } else {
        (0, 0)
    }
}

/// Stick-figure id table: for each actor (by declaration index), the
/// (torso, arms) ids of its top and of its bottom body group.
pub struct StickIds {
    pub top: Vec<(usize, usize)>,
    pub bottom: Vec<(usize, usize)>,
}

/// Number the stick-figure bodies. `is_stick[i]` says whether actor `i` is
/// drawn with a stick-figure body (actor and boundary shapes); the ids are
/// handed out in document order, top bodies first, then bottom bodies, one
/// pair per distinct raw number (`i + 1` for a top body, `n_actors_total`
/// for every bottom body).
pub fn compute_stick_ids(is_stick: &[bool], n_actors_total: usize) -> (r: StickIds)
    requires
        is_stick@.len() <= usize::MAX / 2,
    ensures
        r.top@.len() == is_stick@.len(),
        r.bottom@.len() == is_stick@.len(),
        forall|i: int|
            0 <= i < is_stick@.len() ==> (#[trigger] r.top@[i]).0 == top_stick_id(is_stick@, i).0
                && r.top@[i].1 == top_stick_id(is_stick@, i).1,
        forall|i: int|
            0 <= i < is_stick@.len() ==> (#[trigger] r.bottom@[i]).0 == bottom_stick_id(
                is_stick@,
                n_actors_total as int,
                i,
            ).0 && r.bottom@[i].1 == bottom_stick_id(is_stick@, n_actors_total as int, i).1,
{
    let n = is_stick.len();
    let ghost sticks = is_stick@;
    let mut top: Vec<(usize, usize)> = Vec::new();
    let mut count: usize = 0;
    let mut i: usize = 0;
    while i < n
        invariant
            n == sticks.len(),
            sticks == is_stick@,
            n <= usize::MAX / 2,
            i <= n,
            count == stick_count(sticks, i as int),
            count <= i,
            top@.len() == i,
            forall|j: int|
                0 <= j < i ==> (#[trigger] top@[j]).0 == top_stick_id(sticks, j).0 && top@[j].1
                    == top_stick_id(sticks, j).1,
        decreases n - i,
    {
        if is_stick[i] {
            top.push((2 * count, 2 * count + 1));
            count = count + 1;
        } else {
            top.push((0, 0));
        }
        i = i + 1;
    }
    let pair: (usize, usize) = if 1 <= n_actors_total && n_actors_total <= n && is_stick[n_actors_total
        - 1] {
        top[n_actors_total - 1]
    } else {
        (2 * count, 2 * count + 1)
    };
    let mut bottom: Vec<(usize, usize)> = Vec::new();
    let mut j: usize = 0;
    while j < n
        invariant
            n == sticks.len(),
            sticks == is_stick@,
            j <= n,
            bottom@.len() == j,
            pair.0 == bottom_stick_pair(sticks, n_actors_total as int).0,
            pair.1 == bottom_stick_pair(sticks, n_actors_total as int).1,
            forall|k: int|
                0 <= k < j ==> (#[trigger] bottom@[k]).0 == bottom_stick_id(
                    sticks,
                    n_actors_total as int,
                    k,
                ).0 && bottom@[k].1 == bottom_stick_id(sticks, n_actors_total as int, k).1,
        decreases n - j,
    {
        if is_stick[j] {
            bottom.push(pair);
        } else {
            bottom.push((0, 0));
        }
        j = j + 1;
    }
    StickIds { top, bottom }
}

/// The stand-in document for a diagram that cannot be drawn.
pub open spec fn placeholder_svg(id: Seq<char>) -> Seq<char> {
    "<svg id=\""@ + id
        + "\" width=\"100%\" xmlns=\"http://www.w3.org/2000/svg\" viewBox=\"0 0 100 100\" role=\"graphics-document document\" aria-roledescription=\"sequence\"></svg>"@
}

/// Stand-in output: an empty sequence-diagram `<svg>` with the given id.
pub fn placeholder(id: &str) -> (r: String)
    ensures
        r@ == placeholder_svg(id@),
{
    let mut out = String::new();
    out.append("<svg id=\"");
    out.append(id);
    out.append(
        "\" width=\"100%\" xmlns=\"http://www.w3.org/2000/svg\" viewBox=\"0 0 100 100\" role=\"graphics-document document\" aria-roledescription=\"sequence\"></svg>",
    );
    out
}

// ---------------------------------------------------------------------------
// Laws
// ---------------------------------------------------------------------------

proof fn lemma_br_split_plain(s: Seq<char>, start: int, i: int)
    requires
        0 <= start <= s.len(),
        !s.contains('<'),
    ensures
        br_split_from(s, start, i) == seq![s.subrange(start, s.len() as int)],
    decreases s.len() - i,
{
    if !(i < 0 || i + 3 > s.len()) {
        assert(s[i] != '<');
        lemma_br_split_plain(s, start, i + 1);
    }
}

/// Text without `<` is not split: it comes back as its only line.
pub proof fn law_split_br_plain(s: Seq<char>)
    requires
        !s.contains('<'),
    ensures
        br_split(s) == seq![s],
{
    lemma_br_split_plain(s, 0, 0);
    assert(s.subrange(0, s.len() as int) == s);
}

/// Escaped text holds no `<` and no `>`, and escaped attribute values no
/// `"`: markup cannot survive escaping.
pub proof fn law_escape_no_markup(s: Seq<char>, i: int, attr: bool)
    ensures
        !escape_from(s, i, attr).contains('<'),
        !escape_from(s, i, attr).contains('>'),
        attr ==> !escape_from(s, i, attr).contains('"'),
    decreases s.len() - i,
{
    reveal_strlit("&amp;");
    reveal_strlit("&lt;");
    reveal_strlit("&gt;");
    reveal_strlit("&quot;");
    reveal_strlit("&#");
    reveal_strlit("&");
    reveal_strlit(";");
    if !(i < 0 || i >= s.len()) {
        let c = s[i];
        lemma_entity_name_end(s, i + 1);
        let (head, next): (Seq<char>, int) = if c == '&' {
            ("&amp;"@, i + 1)
        } else if c == '<' {
            ("&lt;"@, i + 1)
        } else if c == '>' {
            ("&gt;"@, i + 1)
        } else if attr && c == '"' {
            ("&quot;"@, i + 1)
        } else if c == '#' {
            match hash_entity(s, i) {
                Some((rep, nx)) => (rep, nx),
                None => (seq!['#'], i + 1),
            }
        } else {
            (seq![c], i + 1)
        };
        assert(escape_from(s, i, attr) == head + escape_from(s, next, attr));
        assert(i < next);
        law_escape_no_markup(s, next, attr);
        let tail = escape_from(s, next, attr);
        assert forall|k: int| 0 <= k < head.len() implies head[k] != '<' && head[k] != '>' && (attr
            ==> head[k] != '"') by {
            if c == '#' && hash_entity(s, i) is Some {
                let end = entity_name_end(s, i + 1)->0;
                let name = s.subrange(i + 1, end);
                assert forall|t: int| 0 <= t < name.len() implies is_alnum(name[t]) || name[t]
                    == '_' by {
                    assert(name[t] == s[i + 1 + t]);
                }
            }
        }
        assert forall|k: int| 0 <= k < (head + tail).len() implies (head + tail)[k] != '<' && (head
            + tail)[k] != '>' && (attr ==> (head + tail)[k] != '"') by {
            if k < head.len() {
                assert((head + tail)[k] == head[k]);
            } else {
                assert((head + tail)[k] == tail[k - head.len()]);
            }
        }
    }
}

/// How many of the first `i` actors are stick figures never decreases.
pub proof fn lemma_stick_count_mono(sticks: Seq<bool>, i: int, j: int)
    requires
        0 <= i <= j <= sticks.len(),
    ensures
        stick_count(sticks, i) <= stick_count(sticks, j),
    decreases j - i,
{
    if i < j {
        lemma_stick_count_mono(sticks, i, j - 1);
    }
}

/// No two top stick-figure bodies share an id: every id of one differs
/// from every id of the other.
pub proof fn law_top_stick_ids_distinct(sticks: Seq<bool>, i: int, j: int)
    requires
        0 <= i < j < sticks.len(),
        sticks[i],
        sticks[j],
    ensures
        top_stick_id(sticks, i).0 != top_stick_id(sticks, j).0,
        top_stick_id(sticks, i).0 != top_stick_id(sticks, j).1,
        top_stick_id(sticks, i).1 != top_stick_id(sticks, j).0,
        top_stick_id(sticks, i).1 != top_stick_id(sticks, j).1,
{
    lemma_stick_count_mono(sticks, i + 1, j);
}

/// The replacement of a `#name;` placeholder: `&#name;` for a numeric
/// name, `&name;` otherwise.
pub open spec fn entity_replacement(name: Seq<u8>, numeric: bool) -> Seq<char> {
    (if numeric {
        "&#"@
    } else {
        "&"@
    }) + latin1(name) + ";"@
}

/// Try to consume a `#name;` entity placeholder starting at byte `i`.
/// Returns the `&name;` (or `&#NNN;`) replacement and the position after
/// the `;`; the name must be one or more ASCII letters, digits or `_`.
pub fn try_consume_hash_entity(bytes: &[u8], i: usize) -> (r: Option<(String, usize)>)
    ensures
        r matches Some(x) ==> entity_name_at(bytes@, i as int) matches Some(e) && x.0@
            == entity_replacement(e.0, e.1) && x.1 == e.2,
        r is None ==> entity_name_at(bytes@, i as int) is None,
{
    match try_consume_hash_entity_name(bytes, i) {
        None => None,
        Some((name, numeric, next)) => {
            let mut rep = String::new();
            if numeric {
                rep.append("&#");
            } else {
                rep.append("&");
            }
            rep.append(name.as_str());
            rep.append(";");
            Some((rep, next))
        },
    }
}

/// The fill and class of an actor's rectangle: an actor with a custom class
/// gets the note colour and that class, any other the default actor look.
pub fn actor_rect_style<'a>(class_name: Option<&'a str>) -> (r: (&'a str, &'a str))
    ensures
        class_name matches Some(c) ==> r.0@ == "#EDF2AE"@ && r.1@ == c@,
        class_name is None ==> r.0@ == "#eaeaea"@ && r.1@ == "actor"@,
{
    match class_name {
        Some(cls) => ("#EDF2AE", cls),
        None => ("#eaeaea", "actor"),
    }
}

} // verus!
