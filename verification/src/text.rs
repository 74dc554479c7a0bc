//! Text helpers: CJK double-width classification, display width, and the
//! inline markdown subset (`**`, `__`, `*`, `_`, `` ` ``, `***`) that label
//! text may carry, rendered either as plain text or as HTML.
use vstd::prelude::*;
use vstd::utf8::{encode_scalar, encode_utf8};
use crate::chars::{append_chars, chars_of, is_alnum, is_ascii_alnum, push_char, subvec};

verus! {

// ---------------------------------------------------------------------------
// CJK classification and display width
// ---------------------------------------------------------------------------

/// Whether `c` lies in one of the CJK / fullwidth ranges that occupy two
/// columns in a monospace font.
pub open spec fn spec_is_cjk(c: char) -> bool {
    ||| ('\u{2E80}' <= c && c <= '\u{9FFF}')
    ||| ('\u{F900}' <= c && c <= '\u{FAFF}')
    ||| ('\u{FE30}' <= c && c <= '\u{FE4F}')
    ||| ('\u{FF01}' <= c && c <= '\u{FF60}')
    ||| ('\u{FFE0}' <= c && c <= '\u{FFE6}')
    ||| ('\u{20000}' <= c && c <= '\u{2FA1F}')
}

/// Returns `true` if the character is a CJK ideograph or fullwidth form
/// that typically occupies two columns in a monospace font.
pub fn is_cjk(c: char) -> (r: bool)
    ensures
        r == spec_is_cjk(c),
        r <==> (('\u{2E80}' <= c && c <= '\u{9FFF}') || ('\u{F900}' <= c && c <= '\u{FAFF}')
            || ('\u{FE30}' <= c && c <= '\u{FE4F}') || ('\u{FF01}' <= c && c <= '\u{FF60}')
            || ('\u{FFE0}' <= c && c <= '\u{FFE6}') || ('\u{20000}' <= c && c <= '\u{2FA1F}')),
{
    ('\u{2E80}' <= c && c <= '\u{9FFF}') || ('\u{F900}' <= c && c <= '\u{FAFF}') || ('\u{FE30}'
        <= c && c <= '\u{FE4F}') || ('\u{FF01}' <= c && c <= '\u{FF60}') || ('\u{FFE0}' <= c && c
        <= '\u{FFE6}') || ('\u{20000}' <= c && c <= '\u{2FA1F}')
}

/// Column width of one character: 2 for CJK / fullwidth, 1 otherwise.
pub open spec fn char_width(c: char) -> nat {
    if spec_is_cjk(c) {
        2
    } else {
        1
    }
}

/// Sum of the column widths of the characters of `s`.
pub open spec fn width_of(s: Seq<char>) -> nat
    decreases s.len(),
{
    if s.len() == 0 {
        0
    } else {
        width_of(s.drop_last()) + char_width(s.last())
    }
}

/// Number of CJK / fullwidth characters in `s`.
pub open spec fn cjk_count(s: Seq<char>) -> nat
    decreases s.len(),
{
    if s.len() == 0 {
        0
    } else {
        cjk_count(s.drop_last()) + if spec_is_cjk(s.last()) {
            1nat
        } else {
            0nat
        }
    }
}

/// The width of a sequence is its length plus one per CJK character.
pub proof fn lemma_width_is_len_plus_cjk(s: Seq<char>)
    ensures
        width_of(s) == s.len() + cjk_count(s),
        cjk_count(s) <= s.len(),
    decreases s.len(),
{
    if s.len() > 0 {
        lemma_width_is_len_plus_cjk(s.drop_last());
    }
}

/// Law: a character in one of the ranges U+2E80..=U+9FFF (radicals, CJK
/// symbols and punctuation, kana, bopomofo, Hangul compatibility, CJK
/// unified ideographs), U+F900..=U+FAFF, U+FE30..=U+FE4F, U+FF01..=U+FF60,
/// U+FFE0..=U+FFE6 or U+20000..=U+2FA1F takes two columns, alone or at the
/// end of any text; every other character takes one.
pub proof fn law_cjk_ranges_double_width(c: char, prefix: Seq<char>)
    ensures
        (('\u{2E80}' <= c && c <= '\u{9FFF}') || ('\u{F900}' <= c && c <= '\u{FAFF}')
                || ('\u{FE30}' <= c && c <= '\u{FE4F}') || ('\u{FF01}' <= c && c <= '\u{FF60}')
                || ('\u{FFE0}' <= c && c <= '\u{FFE6}') || ('\u{20000}' <= c && c <= '\u{2FA1F}')) ==> char_width(c) == 2 && width_of(prefix.push(c)) == width_of(prefix) + 2,
        !(('\u{2E80}' <= c && c <= '\u{9FFF}') || ('\u{F900}' <= c && c <= '\u{FAFF}')
                || ('\u{FE30}' <= c && c <= '\u{FE4F}') || ('\u{FF01}' <= c && c <= '\u{FF60}')
                || ('\u{FFE0}' <= c && c <= '\u{FFE6}') || ('\u{20000}' <= c && c <= '\u{2FA1F}')) ==> char_width(c) == 1 && width_of(prefix.push(c)) == width_of(prefix) + 1,
{
    assert(prefix.push(c).drop_last() =~= prefix);
    assert(prefix.push(c).last() == c);
}

/// Estimate display width of a string, treating CJK characters as double-width.
///
/// ASCII and most Latin characters count as 1 unit; CJK ideographs and
/// fullwidth forms count as 2 units.
pub fn display_width(s: &str) -> (w: usize)
    requires
        2 * s@.len() <= usize::MAX,
    ensures
        w == width_of(s@),
{
    let v = chars_of(s);
    let mut w: usize = 0;
    let mut i: usize = 0;
    while i < v.len()
        invariant
            i <= v.len(),
            v@ == s@,
            2 * v@.len() <= usize::MAX,
            w == width_of(v@.take(i as int)),
        decreases v.len() - i,
    {
        proof {
            lemma_width_is_len_plus_cjk(v@.take(i as int));
            assert(v@.take(i + 1).drop_last() == v@.take(i as int));
        }
        if is_cjk(v[i]) {
            w = w + 2;
        } else {
            w = w + 1;
        }
        i = i + 1;
    }
    assert(v@.take(v.len() as int) == v@);
    w
}

/// Law: the display width of a string lies between its character count and
/// twice that count, and equals the character count exactly when the string
/// holds no CJK / fullwidth character.
pub proof fn law_display_width_bounds(s: Seq<char>)
    ensures
        s.len() <= width_of(s) <= 2 * s.len(),
        width_of(s) == s.len() <==> (forall|i: int| 0 <= i < s.len() ==> !spec_is_cjk(#[trigger] s[i])),
    decreases s.len(),
{
    lemma_width_is_len_plus_cjk(s);
    if s.len() > 0 {
        law_display_width_bounds(s.drop_last());
        lemma_width_is_len_plus_cjk(s.drop_last());
        if width_of(s) == s.len() {
            assert forall|i: int| 0 <= i < s.len() implies !spec_is_cjk(#[trigger] s[i]) by {
                if i < s.len() - 1 {
                    assert(s[i] == s.drop_last()[i]);
                }
            }
        }
        if forall|i: int| 0 <= i < s.len() ==> !spec_is_cjk(#[trigger] s[i]) {
            assert forall|i: int| 0 <= i < s.drop_last().len() implies !spec_is_cjk(
                #[trigger] s.drop_last()[i],
            ) by {
                assert(s.drop_last()[i] == s[i]);
            }
            assert(!spec_is_cjk(s[s.len() - 1]));
        }
    }
}


/// Display width is additive: the width of a concatenation is the sum of
/// the widths of its parts.
pub proof fn law_display_width_additive(a: Seq<char>, b: Seq<char>)
    ensures
        width_of(a + b) == width_of(a) + width_of(b),
    decreases b.len(),
{
    if b.len() == 0 {
        assert(a + b =~= a);
    } else {
        law_display_width_additive(a, b.drop_last());
        assert((a + b).drop_last() =~= a + b.drop_last());
        assert((a + b).last() == b.last());
    }
}

// ---------------------------------------------------------------------------
// Inline markdown
// ---------------------------------------------------------------------------

/// `k` copies of `c` start at position `p` of `s`.
pub open spec fn run_at(s: Seq<char>, p: int, c: char, k: int) -> bool {
    0 <= p && p + k <= s.len() && forall|j: int| 0 <= j < k ==> #[trigger] s[p + j] == c
}

/// First position `p >= from` at which `k` copies of `c` start, the search
/// that `str::find` performs for the markers `***`, `**`, `*` and `` ` ``.
pub open spec fn find_run(s: Seq<char>, from: int, c: char, k: int) -> Option<int>
    decreases s.len() - from,
{
    if from < 0 || from >= s.len() || from + k > s.len() {
        None
    } else if run_at(s, from, c, k) {
        Some(from)
    } else {
        find_run(s, from + 1, c, k)
    }
}

/// First `_` at or after `from` that is not followed by an ASCII letter or
/// digit (the CommonMark close-emphasis rule).
pub open spec fn close_under1(s: Seq<char>, from: int) -> Option<int>
    decreases s.len() - from,
{
    if from < 0 || from >= s.len() {
        None
    } else if s[from] == '_' && !(from + 1 < s.len() && is_alnum(s[from + 1])) {
        Some(from)
    } else {
        close_under1(s, from + 1)
    }
}

/// First `__` at or after `from` whose second `_` is not followed by an
/// ASCII letter or digit.
pub open spec fn close_under2(s: Seq<char>, from: int) -> Option<int>
    decreases s.len() - from,
{
    if from < 0 || from + 1 >= s.len() {
        None
    } else if s[from] == '_' && s[from + 1] == '_' && !(from + 2 < s.len() && is_alnum(
        s[from + 2],
    )) {
        Some(from)
    } else {
        close_under2(s, from + 1)
    }
}

/// The kind of inline markup a delimiter pair denotes.
#[derive(PartialEq, Eq, Structural, Clone, Copy)]
pub enum Markup {
    /// `***text***`
    BoldItalic,
    /// `**text**` or `__text__`
    Strong,
    /// `*text*` or `_text_`
    Emph,
    /// `` `text` ``
    Code,
}

/// What the scanner does at one position: wrap the content `[start, end)`
/// in markup and continue at `next`, copy a rejected `__` verbatim, or copy
/// one plain character.
pub enum SpecStep {
    Wrap(Markup, int, int, int),
    Underscores,
    Plain,
}

/// The decision taken at position `i` of `s`. Delimiters are tried in the
/// order `***`, `**`, `__`, `*`, `_`, `` ` ``; `_` and `__` open only when
/// not preceded by an ASCII letter or digit, and single `*` / `_` need
/// non-empty content.
pub open spec fn md_step(s: Seq<char>, i: int) -> SpecStep {
    let n = s.len();
    let prev_alnum = i > 0 && is_alnum(s[i - 1]);
    if i + 2 < n && s[i] == '*' && s[i + 1] == '*' && s[i + 2] == '*' && find_run(
        s,
        i + 3,
        '*',
        3,
    ) is Some {
        let end = find_run(s, i + 3, '*', 3).unwrap();
        SpecStep::Wrap(Markup::BoldItalic, i + 3, end, end + 3)
    } else if i + 1 < n && s[i] == '*' && s[i + 1] == '*' && find_run(s, i + 2, '*', 2) is Some {
        let end = find_run(s, i + 2, '*', 2).unwrap();
        SpecStep::Wrap(Markup::Strong, i + 2, end, end + 2)
    } else if i + 1 < n && s[i] == '_' && s[i + 1] == '_' {
        if !prev_alnum && close_under2(s, i + 2) is Some {
            let end = close_under2(s, i + 2).unwrap();
            SpecStep::Wrap(Markup::Strong, i + 2, end, end + 2)
        } else {
            SpecStep::Underscores
        }
    } else if s[i] == '*' && find_run(s, i + 1, '*', 1) is Some && find_run(s, i + 1, '*', 1).unwrap()
        > i + 1 {
        let end = find_run(s, i + 1, '*', 1).unwrap();
        SpecStep::Wrap(Markup::Emph, i + 1, end, end + 1)
    } else if s[i] == '_' && !prev_alnum && close_under1(s, i + 1) is Some && close_under1(
        s,
        i + 1,
    ).unwrap() > i + 1 {
        let end = close_under1(s, i + 1).unwrap();
        SpecStep::Wrap(Markup::Emph, i + 1, end, end + 1)
    } else if s[i] == '`' && find_run(s, i + 1, '`', 1) is Some {
        let end = find_run(s, i + 1, '`', 1).unwrap();
        SpecStep::Wrap(Markup::Code, i + 1, end, end + 1)
    } else {
        SpecStep::Plain
    }
}

pub proof fn lemma_find_run(s: Seq<char>, from: int, c: char, k: int)
    ensures
        find_run(s, from, c, k) matches Some(p) ==> from <= p && run_at(s, p, c, k),
    decreases s.len() - from,
{
    if !(from < 0 || from >= s.len() || from + k > s.len()) && !run_at(s, from, c, k) {
        lemma_find_run(s, from + 1, c, k);
    }
}

pub proof fn lemma_close_under1(s: Seq<char>, from: int)
    ensures
        close_under1(s, from) matches Some(p) ==> from <= p < s.len() && s[p] == '_',
    decreases s.len() - from,
{
    if !(from < 0 || from >= s.len()) {
        lemma_close_under1(s, from + 1);
    }
}

pub proof fn lemma_close_under2(s: Seq<char>, from: int)
    ensures
        close_under2(s, from) matches Some(p) ==> from <= p && p + 2 <= s.len(),
    decreases s.len() - from,
{
    if !(from < 0 || from + 1 >= s.len()) {
        lemma_close_under2(s, from + 1);
    }
}

/// Bounds of a scanner step: wrapped content lies strictly inside the
/// scanned text after `i`, and the scan moves forward without passing the end.
pub proof fn lemma_md_step_bounds(s: Seq<char>, i: int)
    requires
        0 <= i < s.len(),
    ensures
        md_step(s, i) matches SpecStep::Wrap(_, a, b, nx) ==> i < a <= b && b < nx <= s.len(),
        md_step(s, i) is Underscores ==> i + 2 <= s.len(),
{
    lemma_find_run(s, i + 3, '*', 3);
    lemma_find_run(s, i + 2, '*', 2);
    lemma_find_run(s, i + 1, '*', 1);
    lemma_find_run(s, i + 1, '`', 1);
    lemma_close_under1(s, i + 1);
    lemma_close_under2(s, i + 2);
}

/// Plain-text content of `s[i..]`: markup delimiters dropped, content kept.
pub open spec fn md_text_from(s: Seq<char>, i: int) -> Seq<char>
    decreases s.len(), s.len() - i,
{
    if i < 0 || i >= s.len() {
        Seq::empty()
    } else {
        proof {
            lemma_md_step_bounds(s, i);
        }
        match md_step(s, i) {
            SpecStep::Wrap(k, a, b, nx) => {
                let inner = if k == Markup::Code {
                    s.subrange(a, b)
                } else {
                    md_text_from(s.subrange(a, b), 0)
                };
                inner + md_text_from(s, nx)
            },
            SpecStep::Underscores => seq!['_', '_'] + md_text_from(s, i + 2),
            SpecStep::Plain => seq![s[i]] + md_text_from(s, i + 1),
        }
    }
}

/// Plain-text content of a markdown label (what `textContent` reads after
/// rendering).
pub open spec fn md_text(s: Seq<char>) -> Seq<char> {
    md_text_from(s, 0)
}


/// Opening HTML tag(s) for a markup kind.
pub open spec fn open_tag(k: Markup) -> Seq<char> {
    match k {
        Markup::BoldItalic => "<em><strong>"@,
        Markup::Strong => "<strong>"@,
        Markup::Emph => "<em>"@,
        Markup::Code => "<code>"@,
    }
}

/// Closing HTML tag(s) for a markup kind.
pub open spec fn close_tag(k: Markup) -> Seq<char> {
    match k {
        Markup::BoldItalic => "</strong></em>"@,
        Markup::Strong => "</strong>"@,
        Markup::Emph => "</em>"@,
        Markup::Code => "</code>"@,
    }
}

/// HTML rendering of `s[i..]`: each delimiter pair replaced by its tags.
pub open spec fn md_html_from(s: Seq<char>, i: int) -> Seq<char>
    decreases s.len(), s.len() - i,
{
    if i < 0 || i >= s.len() {
        Seq::empty()
    } else {
        proof {
            lemma_md_step_bounds(s, i);
        }
        match md_step(s, i) {
            SpecStep::Wrap(k, a, b, nx) => {
                let inner = if k == Markup::Code {
                    s.subrange(a, b)
                } else {
                    md_html_from(s.subrange(a, b), 0)
                };
                open_tag(k) + inner + close_tag(k) + md_html_from(s, nx)
            },
            SpecStep::Underscores => seq!['_', '_'] + md_html_from(s, i + 2),
            SpecStep::Plain => seq![s[i]] + md_html_from(s, i + 1),
        }
    }
}

/// HTML rendering of a markdown label.
pub open spec fn md_html(s: Seq<char>) -> Seq<char> {
    md_html_from(s, 0)
}

/// A scanner step in executable form.
pub enum Step {
    Wrap(Markup, usize, usize, usize),
    Underscores,
    Plain,
}

impl Step {
    pub open spec fn view(self) -> SpecStep {
        match self {
            Step::Wrap(k, a, b, nx) => SpecStep::Wrap(k, a as int, b as int, nx as int),
            Step::Underscores => SpecStep::Underscores,
            Step::Plain => SpecStep::Plain,
        }
    }
}

fn run_at_exec(s: &Vec<char>, p: usize, c: char, k: usize) -> (r: bool)
    requires
        p + k <= s.len(),
    ensures
        r == run_at(s@, p as int, c, k as int),
{
    let mut j: usize = 0;
    while j < k
        invariant
            j <= k,
            p + k <= s.len(),
            forall|t: int| 0 <= t < j ==> #[trigger] s@[p + t] == c,
        decreases k - j,
    {
        if s[p + j] != c {
            return false;
        }
        j = j + 1;
    }
    true
}

fn find_marker_str(s: &Vec<char>, from: usize, c: char, k: usize) -> (r: Option<usize>)
    requires
        k <= 3,
        s.len() + 3 <= usize::MAX,
    ensures
        r matches Some(p) ==> find_run(s@, from as int, c, k as int) == Some(p as int),
        r is None ==> find_run(s@, from as int, c, k as int) is None,
{
    let n = s.len();
    let mut p = from;
    while p < n && p + k <= n
        invariant
            from <= p,
            n == s.len(),
            n + 3 <= usize::MAX,
            k <= 3,
            find_run(s@, from as int, c, k as int) == find_run(s@, p as int, c, k as int),
        decreases n - p,
    {
        if run_at_exec(s, p, c, k) {
            return Some(p);
        }
        p = p + 1;
    }
    None
}

fn find_closing_underscore1(s: &Vec<char>, from: usize) -> (r: Option<usize>)
    ensures
        r matches Some(p) ==> close_under1(s@, from as int) == Some(p as int),
        r is None ==> close_under1(s@, from as int) is None,
{
    let n = s.len();
    let mut p = from;
    while p < n
        invariant
            from <= p,
            n == s.len(),
            close_under1(s@, from as int) == close_under1(s@, p as int),
        decreases n - p,
    {
        if s[p] == '_' && !(p + 1 < n && is_ascii_alnum(s[p + 1])) {
            return Some(p);
        }
        p = p + 1;
    }
    None
}

fn find_closing_underscore2(s: &Vec<char>, from: usize) -> (r: Option<usize>)
    ensures
        r matches Some(p) ==> close_under2(s@, from as int) == Some(p as int),
        r is None ==> close_under2(s@, from as int) is None,
{
    let n = s.len();
    let mut p = from;
    while p < n && p + 1 < n
        invariant
            from <= p,
            n == s.len(),
            close_under2(s@, from as int) == close_under2(s@, p as int),
        decreases n - p,
    {
        if s[p] == '_' && s[p + 1] == '_' && !(p + 2 < n && is_ascii_alnum(s[p + 2])) {
            return Some(p);
        }
        p = p + 1;
    }
    None
}

fn md_step_exec(s: &Vec<char>, i: usize) -> (st: Step)
    requires
        i < s.len(),
        s.len() + 3 <= usize::MAX,
    ensures
        st.view() == md_step(s@, i as int),
{
    proof {
        lemma_find_run(s@, i + 3, '*', 3);
        lemma_find_run(s@, i + 2, '*', 2);
        lemma_find_run(s@, i + 1, '*', 1);
        lemma_find_run(s@, i + 1, '`', 1);
        lemma_close_under1(s@, i + 1);
        lemma_close_under2(s@, i + 2);
    }
    let n = s.len();
    let prev_alnum = i > 0 && is_ascii_alnum(s[i - 1]);
    if i + 2 < n && s[i] == '*' && s[i + 1] == '*' && s[i + 2] == '*' {
        if let Some(end) = find_marker_str(s, i + 3, '*', 3) {
            return Step::Wrap(Markup::BoldItalic, i + 3, end, end + 3);
        }
    }
    if i + 1 < n && s[i] == '*' && s[i + 1] == '*' {
        if let Some(end) = find_marker_str(s, i + 2, '*', 2) {
            return Step::Wrap(Markup::Strong, i + 2, end, end + 2);
        }
    }
    if i + 1 < n && s[i] == '_' && s[i + 1] == '_' {
        if !prev_alnum {
            if let Some(end) = find_closing_underscore2(s, i + 2) {
                return Step::Wrap(Markup::Strong, i + 2, end, end + 2);
            }
        }
        return Step::Underscores;
    }
    if s[i] == '*' {
        if let Some(end) = find_marker_str(s, i + 1, '*', 1) {
            if end > i + 1 {
                return Step::Wrap(Markup::Emph, i + 1, end, end + 1);
            }
        }
    }
    if s[i] == '_' && !prev_alnum {
        if let Some(end) = find_closing_underscore1(s, i + 1) {
            if end > i + 1 {
                return Step::Wrap(Markup::Emph, i + 1, end, end + 1);
            }
        }
    }
    if s[i] == '`' {
        if let Some(end) = find_marker_str(s, i + 1, '`', 1) {
            return Step::Wrap(Markup::Code, i + 1, end, end + 1);
        }
    }
    Step::Plain
}

/// Appends the plain-text content of the markdown label `s` to `out`.
fn md_text_into(s: &Vec<char>, out: &mut String)
    requires
        s.len() + 3 <= usize::MAX,
    ensures
        final(out)@ == old(out)@ + md_text(s@),
    decreases s@.len(),
{
    let n = s.len();
    let mut i: usize = 0;
    while i < n
        invariant
            i <= n,
            n == s.len(),
            n + 3 <= usize::MAX,
            old(out)@ + md_text(s@) == out@ + md_text_from(s@, i as int),
        decreases n - i,
    {
        proof {
            lemma_md_step_bounds(s@, i as int);
        }
        let ghost before = out@;
        match md_step_exec(s, i) {
            Step::Wrap(k, a, b, nx) => {
                let sub = subvec(s, a, b);
                if k == Markup::Code {
                    append_chars(out, &sub);
                } else {
                    md_text_into(&sub, out);
                }
                assert(before + md_text_from(s@, i as int) == out@ + md_text_from(s@, nx as int));
                i = nx;
            },
            Step::Underscores => {
                push_char(out, '_');
                push_char(out, '_');
                assert(before.push('_').push('_') == before + seq!['_', '_']);
                assert(before + md_text_from(s@, i as int) == out@ + md_text_from(s@, i + 2));
                i = i + 2;
            },
            Step::Plain => {
                push_char(out, s[i]);
                assert(before + md_text_from(s@, i as int) == out@ + md_text_from(s@, i + 1));
                i = i + 1;
            },
        }
    }
}

/// Extract the plain-text content that a markdown label renders to, matching
/// what a DOM `textContent` read returns after the label is rendered.
///
/// `**text**`, `__text__`, `***text***` (strong), `*text*`, `_text_` (emphasis)
/// and `` `code` `` keep only their content; `_`/`__` open emphasis only when
/// not preceded by an ASCII letter or digit and close only when not followed
/// by one, so `word_with_underscores` stays as is. HTML entities pass through
/// unchanged.
pub fn markdown_text_content(s: &str) -> (r: String)
    requires
        s@.len() + 3 <= usize::MAX,
    ensures
        r@ == md_text(s@),
{
    let v = chars_of(s);
    let mut out = String::new();
    md_text_into(&v, &mut out);
    out
}

fn append_open_tag(out: &mut String, k: Markup)
    ensures
        final(out)@ == old(out)@ + open_tag(k),
{
    match k {
        Markup::BoldItalic => out.append("<em><strong>"),
        Markup::Strong => out.append("<strong>"),
        Markup::Emph => out.append("<em>"),
        Markup::Code => out.append("<code>"),
    }
}

fn append_close_tag(out: &mut String, k: Markup)
    ensures
        final(out)@ == old(out)@ + close_tag(k),
{
    match k {
        Markup::BoldItalic => out.append("</strong></em>"),
        Markup::Strong => out.append("</strong>"),
        Markup::Emph => out.append("</em>"),
        Markup::Code => out.append("</code>"),
    }
}

/// Appends the HTML rendering of the markdown label `s` to `out`.
fn md_html_into(s: &Vec<char>, out: &mut String)
    requires
        s.len() + 3 <= usize::MAX,
    ensures
        final(out)@ == old(out)@ + md_html(s@),
    decreases s@.len(),
{
    let n = s.len();
    let mut i: usize = 0;
    while i < n
        invariant
            i <= n,
            n == s.len(),
            n + 3 <= usize::MAX,
            old(out)@ + md_html(s@) == out@ + md_html_from(s@, i as int),
        decreases n - i,
    {
        proof {
            lemma_md_step_bounds(s@, i as int);
        }
        let ghost before = out@;
        match md_step_exec(s, i) {
            Step::Wrap(k, a, b, nx) => {
                let sub = subvec(s, a, b);
                append_open_tag(out, k);
                let ghost mid = out@;
                if k == Markup::Code {
                    append_chars(out, &sub);
                } else {
                    md_html_into(&sub, out);
                }
                let ghost inner = if k == Markup::Code {
                    sub@
                } else {
                    md_html(sub@)
                };
                assert(out@ == mid + inner);
                append_close_tag(out, k);
                assert(out@ == before + open_tag(k) + inner + close_tag(k));
                assert(before + md_html_from(s@, i as int) == out@ + md_html_from(s@, nx as int));
                i = nx;
            },
            Step::Underscores => {
                push_char(out, '_');
                push_char(out, '_');
                assert(before.push('_').push('_') == before + seq!['_', '_']);
                assert(before + md_html_from(s@, i as int) == out@ + md_html_from(s@, i + 2));
                i = i + 2;
            },
            Step::Plain => {
                push_char(out, s[i]);
                assert(before + md_html_from(s@, i as int) == out@ + md_html_from(s@, i + 1));
                i = i + 1;
            },
        }
    }
}

/// Convert markdown inline markup to HTML for single-line label text.
///
/// `***text***` → `<em><strong>text</strong></em>`, `**text**` / `__text__` →
/// `<strong>text</strong>`, `*text*` / `_text_` → `<em>text</em>`,
/// `` `text` `` → `<code>text</code>`; plain text passes through unchanged.
/// The delimiters are recognised exactly as in [`markdown_text_content`].
pub fn markdown_to_html(s: &str) -> (r: String)
    requires
        s@.len() + 3 <= usize::MAX,
    ensures
        r@ == md_html(s@),
{
    let v = chars_of(s);
    let mut out = String::new();
    md_html_into(&v, &mut out);
    out
}

/// No character of `s` is one of the markdown delimiters `*`, `_`, `` ` ``.
pub open spec fn markup_free(s: Seq<char>) -> bool {
    forall|i: int| 0 <= i < s.len() ==> #[trigger] s[i] != '*' && s[i] != '_' && s[i] != '`'
}

proof fn lemma_markup_free_from(s: Seq<char>, i: int)
    requires
        markup_free(s),
        0 <= i <= s.len(),
    ensures
        md_text_from(s, i) == s.subrange(i, s.len() as int),
        md_html_from(s, i) == s.subrange(i, s.len() as int),
    decreases s.len() - i,
{
    if i < s.len() {
        assert(s[i] != '*' && s[i] != '_' && s[i] != '`');
        assert(md_step(s, i) is Plain);
        lemma_markup_free_from(s, i + 1);
        assert(s.subrange(i, s.len() as int) == seq![s[i]] + s.subrange(i + 1, s.len() as int));
    } else {
        assert(s.subrange(i, s.len() as int) =~= Seq::<char>::empty());
    }
}

/// Law: a label without any of the delimiters `*`, `_`, `` ` `` is returned
/// unchanged both as plain text and as HTML (so entities such as
/// `&lt;&lt;Requirement&gt;&gt;` pass through as they are).
pub proof fn law_markup_free_unchanged(s: Seq<char>)
    requires
        markup_free(s),
    ensures
        md_text(s) == s,
        md_html(s) == s,
{
    lemma_markup_free_from(s, 0);
    assert(s.subrange(0, s.len() as int) == s);
}

proof fn lemma_md_text_from_len(s: Seq<char>, i: int)
    requires
        0 <= i <= s.len(),
    ensures
        md_text_from(s, i).len() <= s.len() - i,
    decreases s.len(), s.len() - i,
{
    if i < s.len() {
        lemma_md_step_bounds(s, i);
        match md_step(s, i) {
            SpecStep::Wrap(k, a, b, nx) => {
                if k != Markup::Code {
                    lemma_md_text_from_len(s.subrange(a, b), 0);
                }
                lemma_md_text_from_len(s, nx);
            },
            SpecStep::Underscores => {
                lemma_md_text_from_len(s, i + 2);
            },
            SpecStep::Plain => {
                lemma_md_text_from_len(s, i + 1);
            },
        }
    }
}

/// Law: the plain-text content of a label is never longer than the label;
/// markup only ever removes delimiter characters.
pub proof fn law_md_text_not_longer(s: Seq<char>)
    ensures
        md_text(s).len() <= s.len(),
{
    lemma_md_text_from_len(s, 0);
}

/// UTF-8 encoding distributes over concatenation.
pub proof fn lemma_utf8_concat(a: Seq<char>, b: Seq<char>)
    ensures
        encode_utf8(a + b) == encode_utf8(a) + encode_utf8(b),
    decreases a.len(),
{
    if a.len() == 0 {
        assert(a + b =~= b);
        assert(encode_utf8(a) + encode_utf8(b) =~= encode_utf8(b));
    } else {
        assert((a + b).drop_first() =~= a.drop_first() + b);
        assert((a + b)[0] == a[0]);
        lemma_utf8_concat(a.drop_first(), b);
        assert(encode_utf8(a + b) =~= encode_scalar(a[0] as u32) + (encode_utf8(a.drop_first())
            + encode_utf8(b)));
    }
}

proof fn lemma_md_text_from_bytes(s: Seq<char>, i: int)
    requires
        0 <= i <= s.len(),
    ensures
        encode_utf8(md_text_from(s, i)).len() <= encode_utf8(s.subrange(i, s.len() as int)).len(),
    decreases s.len(), s.len() - i,
{
    let n = s.len() as int;
    if i < n {
        lemma_md_step_bounds(s, i);
        match md_step(s, i) {
            SpecStep::Wrap(k, a, b, nx) => {
                let sub = s.subrange(a, b);
                lemma_md_text_from_bytes(s, nx);
                let inner = if k == Markup::Code {
                    sub
                } else {
                    md_text_from(sub, 0)
                };
                if k != Markup::Code {
                    lemma_md_text_from_bytes(sub, 0);
                    assert(sub.subrange(0, sub.len() as int) =~= sub);
                }
                lemma_utf8_concat(inner, md_text_from(s, nx));
                let p1 = s.subrange(i, a);
                let p3 = s.subrange(b, nx);
                let p4 = s.subrange(nx, n);
                assert(s.subrange(i, n) =~= p1 + (sub + (p3 + p4)));
                lemma_utf8_concat(p3, p4);
                lemma_utf8_concat(sub, p3 + p4);
                lemma_utf8_concat(p1, sub + (p3 + p4));
            },
            SpecStep::Underscores => {
                lemma_md_text_from_bytes(s, i + 2);
                assert(s.subrange(i, i + 2) =~= seq!['_', '_']);
                assert(s.subrange(i, n) =~= s.subrange(i, i + 2) + s.subrange(i + 2, n));
                lemma_utf8_concat(seq!['_', '_'], md_text_from(s, i + 2));
                lemma_utf8_concat(s.subrange(i, i + 2), s.subrange(i + 2, n));
            },
            SpecStep::Plain => {
                lemma_md_text_from_bytes(s, i + 1);
                assert(s.subrange(i, n) =~= seq![s[i]] + s.subrange(i + 1, n));
                lemma_utf8_concat(seq![s[i]], md_text_from(s, i + 1));
                lemma_utf8_concat(seq![s[i]], s.subrange(i + 1, n));
            },
        }
    }
}

/// Law: the plain-text content of a label is no longer than the label in
/// UTF-8 bytes either; markup only ever removes delimiter characters.
pub proof fn law_md_text_not_longer_bytes(s: Seq<char>)
    ensures
        encode_utf8(md_text(s)).len() <= encode_utf8(s).len(),
{
    lemma_md_text_from_bytes(s, 0);
    assert(s.subrange(0, s.len() as int) =~= s);
}

/// `t` starts with the character sequence `tag`.
pub open spec fn starts_with(t: Seq<char>, tag: Seq<char>) -> bool {
    tag.len() <= t.len() && t.subrange(0, tag.len() as int) == tag
}

/// `<strong>`
pub open spec fn strong_open() -> Seq<char> {
    seq!['<', 's', 't', 'r', 'o', 'n', 'g', '>']
}

/// `</strong>`
pub open spec fn strong_close() -> Seq<char> {
    seq!['<', '/', 's', 't', 'r', 'o', 'n', 'g', '>']
}

/// `<em>`
pub open spec fn em_open() -> Seq<char> {
    seq!['<', 'e', 'm', '>']
}

/// `</em>`
pub open spec fn em_close() -> Seq<char> {
    seq!['<', '/', 'e', 'm', '>']
}

/// `<code>`
pub open spec fn code_open() -> Seq<char> {
    seq!['<', 'c', 'o', 'd', 'e', '>']
}

/// `</code>`
pub open spec fn code_close() -> Seq<char> {
    seq!['<', '/', 'c', 'o', 'd', 'e', '>']
}

/// Length of the `strong`, `em` or `code` tag (opening or closing) that `t`
/// starts with, or 0 when it starts with none of them.
pub open spec fn markup_tag_len(t: Seq<char>) -> nat {
    if starts_with(t, strong_open()) {
        8
    } else if starts_with(t, strong_close()) {
        9
    } else if starts_with(t, em_open()) {
        4
    } else if starts_with(t, em_close()) {
        5
    } else if starts_with(t, code_open()) {
        6
    } else if starts_with(t, code_close()) {
        7
    } else {
        0
    }
}

/// `t` with every `<strong>`, `</strong>`, `<em>`, `</em>`, `<code>` and
/// `</code>` deleted, read from left to right.
pub open spec fn strip_markup_tags(t: Seq<char>) -> Seq<char>
    decreases t.len(),
{
    if t.len() == 0 {
        Seq::empty()
    } else if markup_tag_len(t) > 0 {
        strip_markup_tags(t.skip(markup_tag_len(t) as int))
    } else {
        seq![t[0]] + strip_markup_tags(t.skip(1))
    }
}

/// No character of `s` is `<`.
pub open spec fn no_angle(s: Seq<char>) -> bool {
    forall|j: int| 0 <= j < s.len() ==> #[trigger] s[j] != '<'
}

/// `t` does not start with `tag` because they differ at position `j`.
proof fn lemma_differs_at(t: Seq<char>, tag: Seq<char>, j: int)
    requires
        0 <= j < tag.len(),
        j < t.len(),
        t[j] != tag[j],
    ensures
        !starts_with(t, tag),
{
    if starts_with(t, tag) {
        assert(t.subrange(0, tag.len() as int)[j] == t[j]);
    }
}

/// A text without `<` in front of `z` survives tag deletion unchanged.
proof fn lemma_strip_plain_prefix(a: Seq<char>, z: Seq<char>)
    requires
        no_angle(a),
    ensures
        strip_markup_tags(a + z) == a + strip_markup_tags(z),
    decreases a.len(),
{
    if a.len() > 0 {
        let t = a + z;
        assert(t[0] == a[0]);
        assert(t[0] != '<');
        lemma_differs_at(t, strong_open(), 0);
        lemma_differs_at(t, strong_close(), 0);
        lemma_differs_at(t, em_open(), 0);
        lemma_differs_at(t, em_close(), 0);
        lemma_differs_at(t, code_open(), 0);
        lemma_differs_at(t, code_close(), 0);
        assert(markup_tag_len(t) == 0);
        assert(t.skip(1) =~= a.skip(1) + z);
        lemma_strip_plain_prefix(a.skip(1), z);
        assert(a =~= seq![a[0]] + a.skip(1));
    }
}

/// One whole tag in front of `z` is deleted.
proof fn lemma_strip_tag_prefix(tag: Seq<char>, z: Seq<char>)
    requires
        tag == strong_open() || tag == strong_close() || tag == em_open() || tag == em_close()
            || tag == code_open() || tag == code_close(),
    ensures
        strip_markup_tags(tag + z) == strip_markup_tags(z),
{
    let t = tag + z;
    assert(t.subrange(0, tag.len() as int) =~= tag);
    assert(forall|j: int| 0 <= j < tag.len() ==> t[j] == tag[j]);
    if tag == strong_open() {
        assert(markup_tag_len(t) == 8);
    } else if tag == strong_close() {
        lemma_differs_at(t, strong_open(), 1);
        assert(markup_tag_len(t) == 9);
    } else if tag == em_open() {
        lemma_differs_at(t, strong_open(), 1);
        lemma_differs_at(t, strong_close(), 1);
        assert(markup_tag_len(t) == 4);
    } else if tag == em_close() {
        lemma_differs_at(t, strong_open(), 1);
        lemma_differs_at(t, strong_close(), 2);
        lemma_differs_at(t, em_open(), 1);
        assert(markup_tag_len(t) == 5);
    } else if tag == code_open() {
        lemma_differs_at(t, strong_open(), 1);
        lemma_differs_at(t, strong_close(), 1);
        lemma_differs_at(t, em_open(), 1);
        lemma_differs_at(t, em_close(), 1);
        assert(markup_tag_len(t) == 6);
    } else {
        lemma_differs_at(t, strong_open(), 1);
        lemma_differs_at(t, strong_close(), 2);
        lemma_differs_at(t, em_open(), 1);
        lemma_differs_at(t, em_close(), 2);
        lemma_differs_at(t, code_open(), 1);
        assert(markup_tag_len(t) == 7);
    }
    assert(t.skip(tag.len() as int) =~= z);
}

/// The opening and closing tags of a markup kind vanish under tag deletion.
proof fn lemma_strip_open_close(k: Markup, z: Seq<char>)
    ensures
        strip_markup_tags(open_tag(k) + z) == strip_markup_tags(z),
        strip_markup_tags(close_tag(k) + z) == strip_markup_tags(z),
{
    reveal_strlit("<em><strong>");
    reveal_strlit("</strong></em>");
    reveal_strlit("<strong>");
    reveal_strlit("</strong>");
    reveal_strlit("<em>");
    reveal_strlit("</em>");
    reveal_strlit("<code>");
    reveal_strlit("</code>");
    match k {
        Markup::BoldItalic => {
            assert(open_tag(k) + z =~= em_open() + (strong_open() + z));
            lemma_strip_tag_prefix(em_open(), strong_open() + z);
            lemma_strip_tag_prefix(strong_open(), z);
            assert(close_tag(k) + z =~= strong_close() + (em_close() + z));
            lemma_strip_tag_prefix(strong_close(), em_close() + z);
            lemma_strip_tag_prefix(em_close(), z);
        },
        Markup::Strong => {
            assert(open_tag(k) =~= strong_open());
            assert(close_tag(k) =~= strong_close());
            lemma_strip_tag_prefix(strong_open(), z);
            lemma_strip_tag_prefix(strong_close(), z);
        },
        Markup::Emph => {
            assert(open_tag(k) =~= em_open());
            assert(close_tag(k) =~= em_close());
            lemma_strip_tag_prefix(em_open(), z);
            lemma_strip_tag_prefix(em_close(), z);
        },
        Markup::Code => {
            assert(open_tag(k) =~= code_open());
            assert(close_tag(k) =~= code_close());
            lemma_strip_tag_prefix(code_open(), z);
            lemma_strip_tag_prefix(code_close(), z);
        },
    }
}

/// Tag deletion over one wrapped span: the tags go, the content and the
/// rest follow.
proof fn lemma_strip_wrap(
    k: Markup,
    inner_h: Seq<char>,
    inner_t: Seq<char>,
    rest_h: Seq<char>,
    rest_t: Seq<char>,
    y: Seq<char>,
)
    requires
        strip_markup_tags(inner_h + (close_tag(k) + rest_h + y)) == inner_t + strip_markup_tags(
            close_tag(k) + rest_h + y,
        ),
        strip_markup_tags(rest_h + y) == rest_t + strip_markup_tags(y),
    ensures
        strip_markup_tags(open_tag(k) + inner_h + close_tag(k) + rest_h + y) == inner_t + rest_t
            + strip_markup_tags(y),
{
    let tail = close_tag(k) + rest_h + y;
    lemma_strip_open_close(k, rest_h + y);
    assert(close_tag(k) + (rest_h + y) =~= tail);
    assert(open_tag(k) + inner_h + close_tag(k) + rest_h + y =~= open_tag(k) + (inner_h + tail));
    lemma_strip_open_close(k, inner_h + tail);
    assert(inner_t + (rest_t + strip_markup_tags(y)) =~= inner_t + rest_t + strip_markup_tags(y));
}

/// Tag deletion over plain characters `p` copied in front of the rest.
proof fn lemma_strip_copy(p: Seq<char>, rest_h: Seq<char>, rest_t: Seq<char>, y: Seq<char>)
    requires
        no_angle(p),
        strip_markup_tags(rest_h + y) == rest_t + strip_markup_tags(y),
    ensures
        strip_markup_tags(p + rest_h + y) == p + rest_t + strip_markup_tags(y),
{
    lemma_strip_plain_prefix(p, rest_h + y);
    assert(p + rest_h + y =~= p + (rest_h + y));
    assert(p + (rest_t + strip_markup_tags(y)) =~= p + rest_t + strip_markup_tags(y));
}

proof fn lemma_strip_html_from(s: Seq<char>, i: int, y: Seq<char>)
    requires
        no_angle(s),
        0 <= i,
    ensures
        strip_markup_tags(md_html_from(s, i) + y) == md_text_from(s, i) + strip_markup_tags(y),
    decreases s.len(), s.len() - i,
{
    if i >= s.len() {
        assert(md_html_from(s, i) + y =~= y);
        assert(md_text_from(s, i) + strip_markup_tags(y) =~= strip_markup_tags(y));
    } else {
        lemma_md_step_bounds(s, i);
        match md_step(s, i) {
            SpecStep::Wrap(k, a, b, nx) => {
                let sub = s.subrange(a, b);
                let rest_h = md_html_from(s, nx);
                let rest_t = md_text_from(s, nx);
                lemma_strip_html_from(s, nx, y);
                let tail = close_tag(k) + rest_h + y;
                assert(no_angle(sub));
                if k == Markup::Code {
                    lemma_strip_plain_prefix(sub, tail);
                    lemma_strip_wrap(k, sub, sub, rest_h, rest_t, y);
                } else {
                    lemma_strip_html_from(sub, 0, tail);
                    lemma_strip_wrap(k, md_html_from(sub, 0), md_text_from(sub, 0), rest_h, rest_t, y);
                }
            },
            SpecStep::Underscores => {
                lemma_strip_html_from(s, i + 2, y);
                lemma_strip_copy(seq!['_', '_'], md_html_from(s, i + 2), md_text_from(s, i + 2), y);
            },
            SpecStep::Plain => {
                lemma_strip_html_from(s, i + 1, y);
                lemma_strip_copy(seq![s[i]], md_html_from(s, i + 1), md_text_from(s, i + 1), y);
            },
        }
    }
}

/// Law: for a label without `<`, deleting the `strong`, `em` and `code` tags
/// from its HTML rendering gives its plain-text content; both renderings
/// recognise the same markup and differ only in the tags.
pub proof fn law_md_html_strips_to_text(s: Seq<char>)
    requires
        no_angle(s),
    ensures
        strip_markup_tags(md_html(s)) == md_text(s),
{
    lemma_strip_html_from(s, 0, Seq::empty());
    assert(md_html(s) + Seq::<char>::empty() =~= md_html(s));
    assert(strip_markup_tags(Seq::<char>::empty()) =~= Seq::<char>::empty());
    assert(md_text(s) + Seq::<char>::empty() =~= md_text(s));
}

} // verus!
