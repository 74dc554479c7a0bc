//! Helpers of the treemap renderer: inline-style splitting, the ordinal
//! colour scales, label-style normalisation, value-format precision and
//! text escaping.
use vstd::prelude::*;
use crate::chars::{
    append_chars, decimal, char_pos, char_pos_exec, chars_of, find_sub, find_sub_exec, join, lemma_char_pos,
    lemma_join_push, push_char, push_joined, replace_all, replace_str, split_char, split_chars,
    str_eq, string_from_chars, subvec, trim, trim_chars,
};
use crate::state::escape_text;
use crate::theme::ThemeVariables;

verus! {

// ---------------------------------------------------------------------------
// Small text helpers
// ---------------------------------------------------------------------------

/// Collapse `", "` to `","` in a font-family list.
pub fn minify_font_family(s: &str) -> (r: String)
    ensures
        r@ == replace_all(s@, ", "@, ","@),
{
    proof {
        reveal_strlit(", ");
    }
    replace_str(s, ", ", ",")
}

/// Escape `&`, `<` and `>` for element text.
pub fn html_escape(s: &str) -> (r: String)
    ensures
        r@ == escape_text(s@),
{
    crate::state::xml_escape(s)
}

/// A style declaration as it goes into an attribute: unchanged.
pub fn normalise_decl(decl: &str) -> (r: String)
    ensures
        r@ == decl@,
{
    let mut r = String::new();
    r.append(decl);
    r
}

/// The value of a decimal digit string.
pub open spec fn digits_value(s: Seq<char>) -> nat
    decreases s.len(),
{
    if s.len() == 0 {
        0
    } else {
        digits_value(s.drop_last()) * 10 + ((s.last() as int) - 48) as nat
    }
}

/// What `usize::from_str` accepts: an optional `+`, then one or more ASCII
/// digits whose value fits in `usize`.
pub open spec fn parse_usize(t: Seq<char>) -> Option<nat> {
    let u = if t.len() > 0 && t[0] == '+' {
        t.skip(1)
    } else {
        t
    };
    if u.len() > 0 && crate::state::all_digit_chars(u) && digits_value(u) <= usize::MAX {
        Some(digits_value(u))
    } else {
        None
    }
}

/// The precision of a `.N` format: the number after the leading `.`.
pub open spec fn precision_of(s: Seq<char>) -> Option<nat> {
    if s.len() > 0 && s[0] == '.' {
        parse_usize(s.skip(1))
    } else {
        None
    }
}

/// Parse the precision of a `.N` format specifier.
pub fn parse_precision(s: &str) -> (r: Option<usize>)
    ensures
        r matches Some(n) ==> precision_of(s@) == Some(n as nat),
        r is None ==> precision_of(s@) is None,
{
    let v = chars_of(s);
    if v.len() == 0 || v[0] != '.' {
        return None;
    }
    let mut start: usize = 1;
    if v.len() > 1 && v[1] == '+' {
        start = 2;
    }
    let ghost t = v@.skip(1);
    let ghost u = if t.len() > 0 && t[0] == '+' {
        t.skip(1)
    } else {
        t
    };
    assert(u == v@.skip(start as int));
    assert(precision_of(s@) == parse_usize(t));
    if start >= v.len() {
        return None;
    }
    let mut val: usize = 0;
    let mut j: usize = start;
    while j < v.len()
        invariant
            start <= j <= v.len(),
            1 <= start,
            u == v@.skip(start as int),
            precision_of(s@) == (if u.len() > 0 && crate::state::all_digit_chars(u) && digits_value(u)
                <= usize::MAX {
                Some(digits_value(u))
            } else {
                None
            }),
            crate::state::all_digit_chars(v@.subrange(start as int, j as int)),
            val == digits_value(v@.subrange(start as int, j as int)),
        decreases v.len() - j,
    {
        let c = v[j];
        let ghost pre = v@.subrange(start as int, j as int);
        assert(v@.subrange(start as int, j + 1).drop_last() == pre);
        if !('0' <= c && c <= '9') {
            assert(u[j - start] == c);
            return None;
        }
        let d = (c as u32 - 48) as usize;
        if val > (usize::MAX - d) / 10 {
            proof {
                let big: int = usize::MAX as int;
                assert(val * 10 + d > big) by (nonlinear_arith)
                    requires
                        val > (big - d) / 10,
                        0 <= d <= 9,
                        d <= big,
                ;
                assert(u.take(j - start + 1) =~= v@.subrange(start as int, j + 1));
                if crate::state::all_digit_chars(u) {
                    lemma_digits_value_mono(u, j - start + 1);
                }
            }
            return None;
        }
        val = val * 10 + d;
        j = j + 1;
    }
    assert(v@.subrange(start as int, v.len() as int) == u);
    Some(val)
}

/// The value of a digit string is at least that of any prefix.
pub proof fn lemma_digits_value_mono(u: Seq<char>, k: int)
    requires
        0 <= k <= u.len(),
        crate::state::all_digit_chars(u),
    ensures
        digits_value(u.take(k)) <= digits_value(u),
    decreases u.len() - k,
{
    if k < u.len() {
        lemma_digits_value_mono(u, k + 1);
        assert(u.take(k + 1).drop_last() == u.take(k));
        assert('0' <= u.take(k + 1).last());
    } else {
        assert(u.take(k) == u);
    }
}

// ---------------------------------------------------------------------------
// Inline styles
// ---------------------------------------------------------------------------

/// Properties that style the label text.
pub open spec fn tm_label_key(k: Seq<char>) -> bool {
    ||| k == "color"@
    ||| k == "font-size"@
    ||| k == "font-family"@
    ||| k == "font-weight"@
    ||| k == "font-style"@
    ||| k == "text-align"@
    ||| k == "text-transform"@
    ||| k == "text-decoration"@
    ||| k == "line-height"@
    ||| k == "letter-spacing"@
    ||| k == "word-spacing"@
    ||| k == "white-space"@
    ||| k == "word-wrap"@
    ||| k == "word-break"@
    ||| k == "overflow-wrap"@
    ||| k == "hyphens"@
}

/// Whether a (lower-cased) property name styles the label text.
pub fn is_label_key(k: &str) -> (r: bool)
    ensures
        r == tm_label_key(k@),
{
    str_eq(k, "color") || str_eq(k, "font-size") || str_eq(k, "font-family") || str_eq(k, "font-weight") || str_eq(k, "font-style") || str_eq(k, "text-align") || str_eq(k, "text-transform") || str_eq(k, "text-decoration") || str_eq(k, "line-height") || str_eq(k, "letter-spacing") || str_eq(k, "word-spacing") || str_eq(k, "white-space") || str_eq(k, "word-wrap") || str_eq(k, "word-break") || str_eq(k, "overflow-wrap") || str_eq(k, "hyphens")
}

/// ASCII upper-case letters lowered, everything else unchanged.
pub open spec fn ascii_lower_char(c: char) -> char {
    if 'A' <= c && c <= 'Z' {
        ((c as int) + 32) as char
    } else {
        c
    }
}

/// `str::to_ascii_lowercase`.
pub open spec fn ascii_lower(s: Seq<char>) -> Seq<char> {
    s.map_values(|c: char| ascii_lower_char(c))
}

fn ascii_lower_exec(s: &Vec<char>) -> (r: Vec<char>)
    ensures
        r@ == ascii_lower(s@),
{
    let mut r: Vec<char> = Vec::new();
    let mut i: usize = 0;
    while i < s.len()
        invariant
            i <= s.len(),
            r@ == ascii_lower(s@.take(i as int)),
        decreases s.len() - i,
    {
        let c = s[i];
        let l = if 'A' <= c && c <= 'Z' {
            ((c as u8) + 32) as char
        } else {
            c
        };
        r.push(l);
        assert(ascii_lower(s@.take(i + 1)) =~= ascii_lower(s@.take(i as int)).push(
            ascii_lower_char(c),
        ));
        i = i + 1;
    }
    assert(s@.take(s.len() as int) == s@);
    r
}

/// The property name of a declaration: the text before its first `:`, or
/// all of it.
pub open spec fn decl_key(decl: Seq<char>) -> Seq<char> {
    match char_pos(decl, ':') {
        Some(c) => decl.take(c),
        None => decl,
    }
}

/// How a list of declarations splits: the shape declarations, those of them
/// whose property mentions `stroke` (the border), and the label
/// declarations, each trimmed and followed by ` !important`; empty ones are
/// left out.
pub open spec fn tm_styles(css: Seq<Seq<char>>) -> (Seq<Seq<char>>, Seq<Seq<char>>, Seq<Seq<char>>)
    decreases css.len(),
{
    if css.len() == 0 {
        (Seq::empty(), Seq::empty(), Seq::empty())
    } else {
        let prev = tm_styles(css.drop_last());
        let decl = trim(css.last());
        if decl.len() == 0 {
            prev
        } else {
            let kl = ascii_lower(trim(decl_key(decl)));
            let d = decl + " !important"@;
            if tm_label_key(kl) {
                (prev.0, prev.1, prev.2.push(d))
            } else {
                (
                    prev.0.push(d),
                    if find_sub(kl, 0, "stroke"@) is Some {
                        prev.1.push(d)
                    } else {
                        prev.1
                    },
                    prev.2,
                )
            }
        }
    }
}

/// The character views of a list of strings.
pub open spec fn views(v: Seq<String>) -> Seq<Seq<char>> {
    v.map_values(|x: String| x@)
}

fn tm_styles_exec(css: &[String]) -> (r: (Vec<String>, Vec<String>, Vec<String>))
    ensures
        views(r.0@) == tm_styles(views(css@)).0,
        views(r.1@) == tm_styles(views(css@)).1,
        views(r.2@) == tm_styles(views(css@)).2,
{
    let ghost cv = views(css@);
    let stroke = chars_of("stroke");
    let mut node: Vec<String> = Vec::new();
    let mut border: Vec<String> = Vec::new();
    let mut label: Vec<String> = Vec::new();
    let mut i: usize = 0;
    while i < css.len()
        invariant
            i <= css.len(),
            cv == views(css@),
            stroke@ == "stroke"@,
            views(node@) == tm_styles(cv.take(i as int)).0,
            views(border@) == tm_styles(cv.take(i as int)).1,
            views(label@) == tm_styles(cv.take(i as int)).2,
        decreases css.len() - i,
    {
        assert(cv.take(i + 1).drop_last() == cv.take(i as int));
        assert(cv.take(i + 1).last() == css@[i as int]@);
        let decl = trim_chars(&chars_of(css[i].as_str()));
        if decl.len() > 0 {
            proof {
                lemma_char_pos(decl@, ':');
            }
            let key = match char_pos_exec(&decl, ':') {
                Some(c) => subvec(&decl, 0, c),
                None => subvec(&decl, 0, decl.len()),
            };
            assert(key@ == decl_key(decl@)) by {
                if char_pos(decl@, ':') is None {
                    assert(decl@.subrange(0, decl@.len() as int) == decl@);
                }
            }
            let kl = ascii_lower_exec(&trim_chars(&key));
            let kls = string_from_chars(&kl);
            let mut d = String::new();
            append_chars(&mut d, &decl);
            d.append(" !important");
            let ghost dv = d@;
            if is_label_key(kls.as_str()) {
                let ghost l0 = label@;
                label.push(d);
                assert(views(label@) =~= views(l0).push(dv));
            } else {
                let ghost n0 = node@;
                let ghost b0 = border@;
                if find_sub_exec(&kl, 0, &stroke).is_some() {
                    let mut d2 = String::new();
                    d2.append(d.as_str());
                    border.push(d2);
                    assert(views(border@) =~= views(b0).push(dv));
                }
                node.push(d);
                assert(views(node@) =~= views(n0).push(dv));
            }
        }
        i = i + 1;
    }
    assert(cv.take(css.len() as int) == cv);
    (node, border, label)
}

fn join_strings(items: &Vec<String>, sep: &str) -> (r: String)
    ensures
        r@ == join(views(items@), sep@),
{
    let ghost iv = views(items@);
    let mut out = String::new();
    let mut i: usize = 0;
    while i < items.len()
        invariant
            i <= items.len(),
            iv == views(items@),
            out@ == join(iv.take(i as int), sep@),
        decreases items.len() - i,
    {
        proof {
            assert(iv.take(i + 1) == iv.take(i as int).push(items@[i as int]@));
            lemma_join_push(iv.take(i as int), sep@, items@[i as int]@);
        }
        push_joined(&mut out, i, sep, items[i].as_str());
        i = i + 1;
    }
    assert(iv.take(items.len() as int) == iv);
    out
}

/// Split a node's compiled declarations into the shape styles (joined with
/// `;`) and the border declarations, each with ` !important`; label
/// declarations are left out.
pub fn styles2string(css: &[String]) -> (r: (String, Vec<String>))
    ensures
        r.0@ == join(tm_styles(views(css@)).0, ";"@),
        views(r.1@) == tm_styles(views(css@)).1,
{
    let (node, border, _label) = tm_styles_exec(css);
    (join_strings(&node, ";"), border)
}

/// As [`styles2string`], with the label declarations joined with `;` as
/// well.
pub fn styles3string(css: &[String]) -> (r: (String, Vec<String>, String))
    ensures
        r.0@ == join(tm_styles(views(css@)).0, ";"@),
        views(r.1@) == tm_styles(views(css@)).1,
        r.2@ == join(tm_styles(views(css@)).2, ";"@),
{
    let (node, border, label) = tm_styles_exec(css);
    (join_strings(&node, ";"), border, join_strings(&label, ";"))
}

/// The inline style of a leaf rectangle: its shape styles.
pub fn leaf_rect_style(css: &[String]) -> (r: String)
    ensures
        r@ == join(tm_styles(views(css@)).0, ";"@),
{
    let (node, _border) = styles2string(css);
    node
}

/// The inline style of a section rectangle: hidden for the root, else its
/// shape styles, `;`, and its border styles joined with `;` (so the border
/// declarations appear twice).
pub open spec fn section_rect_style_of(css: Seq<Seq<char>>, is_root: bool) -> Seq<char> {
    if is_root {
        "display: none;"@
    } else {
        join(tm_styles(css).0, ";"@) + ";"@ + join(tm_styles(css).1, ";"@)
    }
}

/// The inline style of a section rectangle (see [`section_rect_style_of`]).
pub fn section_rect_style(css: &[String], is_root: bool) -> (r: String)
    ensures
        r@ == section_rect_style_of(views(css@), is_root),
{
    if is_root {
        let mut r = String::new();
        r.append("display: none;");
        return r;
    }
    let (node, border) = styles2string(css);
    let mut s = node;
    push_char(&mut s, ';');
    let b = join_strings(&border, ";");
    s.append(b.as_str());
    proof {
        reveal_strlit(";");
    }
    s
}

// ---------------------------------------------------------------------------
// Ordinal colour scales
// ---------------------------------------------------------------------------

/// The three ordinal colour scales of a treemap.
#[derive(Clone, Copy, Debug)]
pub enum ScaleKind {
    Main,
    Peer,
    Label,
}

/// No name occurs twice.
pub open spec fn distinct_names(l: Seq<Seq<char>>) -> bool {
    forall|a: int, b: int| 0 <= a < b < l.len() ==> l[a] != l[b]
}

/// Position of the first occurrence of `n` in `l`.
pub open spec fn name_slot(l: Seq<Seq<char>>, n: Seq<char>) -> Option<int>
    decreases l.len(),
{
    if l.len() == 0 {
        None
    } else {
        match name_slot(l.drop_last(), n) {
            Some(j) => Some(j),
            None => if l.last() == n {
                Some(l.len() - 1)
            } else {
                None
            },
        }
    }
}

pub proof fn lemma_name_slot(l: Seq<Seq<char>>, n: Seq<char>)
    ensures
        name_slot(l, n) matches Some(j) ==> 0 <= j < l.len() && l[j] == n && forall|t: int|
            0 <= t < j ==> l[t] != n,
        name_slot(l, n) is None ==> forall|t: int| 0 <= t < l.len() ==> l[t] != n,
    decreases l.len(),
{
    if l.len() > 0 {
        lemma_name_slot(l.drop_last(), n);
        assert forall|t: int| 0 <= t < l.len() - 1 implies l[t] == l.drop_last()[t] by {}
    }
}

/// Looking a name up in a scale's domain: the domain afterwards and the
/// name's slot. A new name takes the next slot.
pub open spec fn slot_after(l: Seq<Seq<char>>, n: Seq<char>) -> (Seq<Seq<char>>, nat) {
    match name_slot(l, n) {
        Some(j) => (l, j as nat),
        None => (l.push(n), l.len()),
    }
}

fn slot_in(list: &mut Vec<String>, name: &str) -> (r: usize)
    requires
        distinct_names(views(old(list)@)),
    ensures
        distinct_names(views(final(list)@)),
        (views(final(list)@), r as nat) == slot_after(views(old(list)@), name@),
{
    let ghost l0 = views(list@);
    proof {
        lemma_name_slot(l0, name@);
    }
    let mut j: usize = 0;
    while j < list.len()
        invariant
            j <= list.len(),
            l0 == views(list@),
            l0 == views(old(list)@),
            distinct_names(l0),
            forall|t: int| 0 <= t < j ==> l0[t] != name@,
        decreases list.len() - j,
    {
        if str_eq(list[j].as_str(), name) {
            assert(l0[j as int] == name@);
            proof {
                lemma_name_slot(l0, name@);
            }
            return j;
        }
        j = j + 1;
    }
    let n = list.len();
    let mut owned = String::new();
    owned.append(name);
    list.push(owned);
    assert(views(list@) =~= l0.push(name@));
    n
}

/// The slot-to-name table of each scale: the names in the order in which
/// they were first looked up.
pub struct ScaleCache {
    main: Vec<String>,
    peer: Vec<String>,
    label: Vec<String>,
}

impl ScaleCache {
    /// The names of one scale, slot by slot.
    pub closed spec fn names(&self, kind: ScaleKind) -> Seq<Seq<char>> {
        match kind {
            ScaleKind::Main => views(self.main@),
            ScaleKind::Peer => views(self.peer@),
            ScaleKind::Label => views(self.label@),
        }
    }

    #[verifier::type_invariant]
    spec fn no_duplicates(&self) -> bool {
        &&& distinct_names(views(self.main@))
        &&& distinct_names(views(self.peer@))
        &&& distinct_names(views(self.label@))
    }

    /// An empty cache.
    pub fn new() -> (r: Self)
        ensures
            r.names(ScaleKind::Main).len() == 0,
            r.names(ScaleKind::Peer).len() == 0,
            r.names(ScaleKind::Label).len() == 0,
    {
        ScaleCache { main: Vec::new(), peer: Vec::new(), label: Vec::new() }
    }

    /// The slot of `name` in the scale `kind`: its slot if it was looked up
    /// before, else the next free slot, which it then keeps.
    pub fn slot_for(&mut self, kind: ScaleKind, name: &str) -> (r: usize)
        ensures
            (final(self).names(kind), r as nat) == slot_after(old(self).names(kind), name@),
            forall|k: ScaleKind| k != kind ==> final(self).names(k) == old(self).names(k),
    {
        proof {
            use_type_invariant(&*self);
        }
        let mut list: Vec<String> = Vec::new();
        match kind {
            ScaleKind::Main => std::mem::swap(&mut list, &mut self.main),
            ScaleKind::Peer => std::mem::swap(&mut list, &mut self.peer),
            ScaleKind::Label => std::mem::swap(&mut list, &mut self.label),
        }
        let r = slot_in(&mut list, name);
        match kind {
            ScaleKind::Main => {
                self.main = list;
            },
            ScaleKind::Peer => {
                self.peer = list;
            },
            ScaleKind::Label => {
                self.label = list;
            },
        }
        r
    }

    /// Forget every name.
    pub fn reset(&mut self)
        ensures
            final(self).names(ScaleKind::Main).len() == 0,
            final(self).names(ScaleKind::Peer).len() == 0,
            final(self).names(ScaleKind::Label).len() == 0,
    {
        *self = ScaleCache { main: Vec::new(), peer: Vec::new(), label: Vec::new() };
    }
}

/// The text of an optional theme string.
pub open spec fn opt_text(o: Option<String>) -> Option<Seq<char>> {
    match o {
        Some(s) => Some(s@),
        None => None,
    }
}

/// The `i`-th main scale colour of a theme.
pub open spec fn c_scale(t: ThemeVariables, i: int) -> Option<String> {
    if i == 0 {
        t.c_scale0
    } else if i == 1 {
        t.c_scale1
    } else if i == 2 {
        t.c_scale2
    } else if i == 3 {
        t.c_scale3
    } else if i == 4 {
        t.c_scale4
    } else if i == 5 {
        t.c_scale5
    } else if i == 6 {
        t.c_scale6
    } else if i == 7 {
        t.c_scale7
    } else if i == 8 {
        t.c_scale8
    } else if i == 9 {
        t.c_scale9
    } else if i == 10 {
        t.c_scale10
    } else if i == 11 {
        t.c_scale11
    } else {
        None
    }
}

/// The `i`-th peer scale colour of a theme.
pub open spec fn c_scale_peer(t: ThemeVariables, i: int) -> Option<String> {
    if i == 0 {
        t.c_scale_peer0
    } else if i == 1 {
        t.c_scale_peer1
    } else if i == 2 {
        t.c_scale_peer2
    } else if i == 3 {
        t.c_scale_peer3
    } else if i == 4 {
        t.c_scale_peer4
    } else if i == 5 {
        t.c_scale_peer5
    } else if i == 6 {
        t.c_scale_peer6
    } else if i == 7 {
        t.c_scale_peer7
    } else if i == 8 {
        t.c_scale_peer8
    } else if i == 9 {
        t.c_scale_peer9
    } else if i == 10 {
        t.c_scale_peer10
    } else if i == 11 {
        t.c_scale_peer11
    } else {
        None
    }
}

/// The `i`-th label scale colour of a theme.
pub open spec fn c_scale_label(t: ThemeVariables, i: int) -> Option<String> {
    if i == 0 {
        t.c_scale_label0
    } else if i == 1 {
        t.c_scale_label1
    } else if i == 2 {
        t.c_scale_label2
    } else if i == 3 {
        t.c_scale_label3
    } else if i == 4 {
        t.c_scale_label4
    } else if i == 5 {
        t.c_scale_label5
    } else if i == 6 {
        t.c_scale_label6
    } else if i == 7 {
        t.c_scale_label7
    } else if i == 8 {
        t.c_scale_label8
    } else if i == 9 {
        t.c_scale_label9
    } else if i == 10 {
        t.c_scale_label10
    } else if i == 11 {
        t.c_scale_label11
    } else {
        None
    }
}

/// The colour of a slot: the main and peer scales cycle through
/// `transparent` and their twelve colours, the label scale through its
/// twelve colours.
pub open spec fn scale_text(t: ThemeVariables, slot: nat, kind: ScaleKind) -> Option<Seq<char>> {
    match kind {
        ScaleKind::Main => if slot % 13 == 0 {
            Some("transparent"@)
        } else {
            opt_text(c_scale(t, slot % 13 - 1))
        },
        ScaleKind::Peer => if slot % 13 == 0 {
            Some("transparent"@)
        } else {
            opt_text(c_scale_peer(t, slot % 13 - 1))
        },
        ScaleKind::Label => opt_text(c_scale_label(t, (slot % 12) as int)),
    }
}

/// Law: the text view keeps an unset value unset and shows a set one as its
/// characters.
pub proof fn law_opt_text(o: Option<String>)
    ensures
        o is None ==> opt_text(o) is None,
        o matches Some(x) ==> opt_text(o) == Some(x@),
{
}

/// Law: the main and peer scales give `transparent` at every slot that is a
/// multiple of 13 and otherwise, at slot `13q + k + 1`, the theme's
/// `cScale<k>` / `cScalePeer<k>`; the label scale gives `cScaleLabel<k>` at
/// slot `12q + k`.
pub proof fn law_scale_slots(t: ThemeVariables, slot: nat)
    ensures
        slot % 13 == 0 ==> scale_text(t, slot, ScaleKind::Main) == Some("transparent"@),
        slot % 13 == 0 ==> scale_text(t, slot, ScaleKind::Peer) == Some("transparent"@),
        slot % 13 == 1 ==> scale_text(t, slot, ScaleKind::Main) == opt_text(t.c_scale0),
        slot % 13 == 2 ==> scale_text(t, slot, ScaleKind::Main) == opt_text(t.c_scale1),
        slot % 13 == 3 ==> scale_text(t, slot, ScaleKind::Main) == opt_text(t.c_scale2),
        slot % 13 == 4 ==> scale_text(t, slot, ScaleKind::Main) == opt_text(t.c_scale3),
        slot % 13 == 5 ==> scale_text(t, slot, ScaleKind::Main) == opt_text(t.c_scale4),
        slot % 13 == 6 ==> scale_text(t, slot, ScaleKind::Main) == opt_text(t.c_scale5),
        slot % 13 == 7 ==> scale_text(t, slot, ScaleKind::Main) == opt_text(t.c_scale6),
        slot % 13 == 8 ==> scale_text(t, slot, ScaleKind::Main) == opt_text(t.c_scale7),
        slot % 13 == 9 ==> scale_text(t, slot, ScaleKind::Main) == opt_text(t.c_scale8),
        slot % 13 == 10 ==> scale_text(t, slot, ScaleKind::Main) == opt_text(t.c_scale9),
        slot % 13 == 11 ==> scale_text(t, slot, ScaleKind::Main) == opt_text(t.c_scale10),
        slot % 13 == 12 ==> scale_text(t, slot, ScaleKind::Main) == opt_text(t.c_scale11),
        slot % 13 == 1 ==> scale_text(t, slot, ScaleKind::Peer) == opt_text(t.c_scale_peer0),
        slot % 13 == 2 ==> scale_text(t, slot, ScaleKind::Peer) == opt_text(t.c_scale_peer1),
        slot % 13 == 3 ==> scale_text(t, slot, ScaleKind::Peer) == opt_text(t.c_scale_peer2),
        slot % 13 == 4 ==> scale_text(t, slot, ScaleKind::Peer) == opt_text(t.c_scale_peer3),
        slot % 13 == 5 ==> scale_text(t, slot, ScaleKind::Peer) == opt_text(t.c_scale_peer4),
        slot % 13 == 6 ==> scale_text(t, slot, ScaleKind::Peer) == opt_text(t.c_scale_peer5),
        slot % 13 == 7 ==> scale_text(t, slot, ScaleKind::Peer) == opt_text(t.c_scale_peer6),
        slot % 13 == 8 ==> scale_text(t, slot, ScaleKind::Peer) == opt_text(t.c_scale_peer7),
        slot % 13 == 9 ==> scale_text(t, slot, ScaleKind::Peer) == opt_text(t.c_scale_peer8),
        slot % 13 == 10 ==> scale_text(t, slot, ScaleKind::Peer) == opt_text(t.c_scale_peer9),
        slot % 13 == 11 ==> scale_text(t, slot, ScaleKind::Peer) == opt_text(t.c_scale_peer10),
        slot % 13 == 12 ==> scale_text(t, slot, ScaleKind::Peer) == opt_text(t.c_scale_peer11),
        slot % 12 == 0 ==> scale_text(t, slot, ScaleKind::Label) == opt_text(t.c_scale_label0),
        slot % 12 == 1 ==> scale_text(t, slot, ScaleKind::Label) == opt_text(t.c_scale_label1),
        slot % 12 == 2 ==> scale_text(t, slot, ScaleKind::Label) == opt_text(t.c_scale_label2),
        slot % 12 == 3 ==> scale_text(t, slot, ScaleKind::Label) == opt_text(t.c_scale_label3),
        slot % 12 == 4 ==> scale_text(t, slot, ScaleKind::Label) == opt_text(t.c_scale_label4),
        slot % 12 == 5 ==> scale_text(t, slot, ScaleKind::Label) == opt_text(t.c_scale_label5),
        slot % 12 == 6 ==> scale_text(t, slot, ScaleKind::Label) == opt_text(t.c_scale_label6),
        slot % 12 == 7 ==> scale_text(t, slot, ScaleKind::Label) == opt_text(t.c_scale_label7),
        slot % 12 == 8 ==> scale_text(t, slot, ScaleKind::Label) == opt_text(t.c_scale_label8),
        slot % 12 == 9 ==> scale_text(t, slot, ScaleKind::Label) == opt_text(t.c_scale_label9),
        slot % 12 == 10 ==> scale_text(t, slot, ScaleKind::Label) == opt_text(t.c_scale_label10),
        slot % 12 == 11 ==> scale_text(t, slot, ScaleKind::Label) == opt_text(t.c_scale_label11),
{
}

fn opt_owned(o: &Option<String>) -> (r: Option<String>)
    ensures
        opt_text(r) == opt_text(*o),
{
    match o {
        Some(s) => {
            let mut c = String::new();
            c.append(s.as_str());
            Some(c)
        },
        None => None,
    }
}

/// The colour of a slot of a scale (see [`scale_text`]).
pub fn scale_value(theme: &ThemeVariables, slot: usize, kind: ScaleKind) -> (r: Option<String>)
    ensures
        opt_text(r) == scale_text(*theme, slot as nat, kind),
        kind == ScaleKind::Main && slot % 13 == 0 ==> opt_text(r) == Some("transparent"@),
        kind == ScaleKind::Peer && slot % 13 == 0 ==> opt_text(r) == Some("transparent"@),
        kind == ScaleKind::Main && slot % 13 == 1 ==> opt_text(r) == opt_text(theme.c_scale0),
        kind == ScaleKind::Main && slot % 13 == 2 ==> opt_text(r) == opt_text(theme.c_scale1),
        kind == ScaleKind::Main && slot % 13 == 3 ==> opt_text(r) == opt_text(theme.c_scale2),
        kind == ScaleKind::Main && slot % 13 == 4 ==> opt_text(r) == opt_text(theme.c_scale3),
        kind == ScaleKind::Main && slot % 13 == 5 ==> opt_text(r) == opt_text(theme.c_scale4),
        kind == ScaleKind::Main && slot % 13 == 6 ==> opt_text(r) == opt_text(theme.c_scale5),
        kind == ScaleKind::Main && slot % 13 == 7 ==> opt_text(r) == opt_text(theme.c_scale6),
        kind == ScaleKind::Main && slot % 13 == 8 ==> opt_text(r) == opt_text(theme.c_scale7),
        kind == ScaleKind::Main && slot % 13 == 9 ==> opt_text(r) == opt_text(theme.c_scale8),
        kind == ScaleKind::Main && slot % 13 == 10 ==> opt_text(r) == opt_text(theme.c_scale9),
        kind == ScaleKind::Main && slot % 13 == 11 ==> opt_text(r) == opt_text(theme.c_scale10),
        kind == ScaleKind::Main && slot % 13 == 12 ==> opt_text(r) == opt_text(theme.c_scale11),
        kind == ScaleKind::Peer && slot % 13 == 1 ==> opt_text(r) == opt_text(theme.c_scale_peer0),
        kind == ScaleKind::Peer && slot % 13 == 2 ==> opt_text(r) == opt_text(theme.c_scale_peer1),
        kind == ScaleKind::Peer && slot % 13 == 3 ==> opt_text(r) == opt_text(theme.c_scale_peer2),
        kind == ScaleKind::Peer && slot % 13 == 4 ==> opt_text(r) == opt_text(theme.c_scale_peer3),
        kind == ScaleKind::Peer && slot % 13 == 5 ==> opt_text(r) == opt_text(theme.c_scale_peer4),
        kind == ScaleKind::Peer && slot % 13 == 6 ==> opt_text(r) == opt_text(theme.c_scale_peer5),
        kind == ScaleKind::Peer && slot % 13 == 7 ==> opt_text(r) == opt_text(theme.c_scale_peer6),
        kind == ScaleKind::Peer && slot % 13 == 8 ==> opt_text(r) == opt_text(theme.c_scale_peer7),
        kind == ScaleKind::Peer && slot % 13 == 9 ==> opt_text(r) == opt_text(theme.c_scale_peer8),
        kind == ScaleKind::Peer && slot % 13 == 10 ==> opt_text(r) == opt_text(theme.c_scale_peer9),
        kind == ScaleKind::Peer && slot % 13 == 11 ==> opt_text(r) == opt_text(theme.c_scale_peer10),
        kind == ScaleKind::Peer && slot % 13 == 12 ==> opt_text(r) == opt_text(theme.c_scale_peer11),
        kind == ScaleKind::Label && slot % 12 == 0 ==> opt_text(r) == opt_text(theme.c_scale_label0),
        kind == ScaleKind::Label && slot % 12 == 1 ==> opt_text(r) == opt_text(theme.c_scale_label1),
        kind == ScaleKind::Label && slot % 12 == 2 ==> opt_text(r) == opt_text(theme.c_scale_label2),
        kind == ScaleKind::Label && slot % 12 == 3 ==> opt_text(r) == opt_text(theme.c_scale_label3),
        kind == ScaleKind::Label && slot % 12 == 4 ==> opt_text(r) == opt_text(theme.c_scale_label4),
        kind == ScaleKind::Label && slot % 12 == 5 ==> opt_text(r) == opt_text(theme.c_scale_label5),
        kind == ScaleKind::Label && slot % 12 == 6 ==> opt_text(r) == opt_text(theme.c_scale_label6),
        kind == ScaleKind::Label && slot % 12 == 7 ==> opt_text(r) == opt_text(theme.c_scale_label7),
        kind == ScaleKind::Label && slot % 12 == 8 ==> opt_text(r) == opt_text(theme.c_scale_label8),
        kind == ScaleKind::Label && slot % 12 == 9 ==> opt_text(r) == opt_text(theme.c_scale_label9),
        kind == ScaleKind::Label && slot % 12 == 10 ==> opt_text(r) == opt_text(theme.c_scale_label10),
        kind == ScaleKind::Label && slot % 12 == 11 ==> opt_text(r) == opt_text(theme.c_scale_label11),
{
    match kind {
        ScaleKind::Main => {
            let s = slot % 13;
            if s == 0 {
                let mut t = String::new();
                t.append("transparent");
                return Some(t);
            }
            match s - 1 {
                0 => opt_owned(&theme.c_scale0),
                1 => opt_owned(&theme.c_scale1),
                2 => opt_owned(&theme.c_scale2),
                3 => opt_owned(&theme.c_scale3),
                4 => opt_owned(&theme.c_scale4),
                5 => opt_owned(&theme.c_scale5),
                6 => opt_owned(&theme.c_scale6),
                7 => opt_owned(&theme.c_scale7),
                8 => opt_owned(&theme.c_scale8),
                9 => opt_owned(&theme.c_scale9),
                10 => opt_owned(&theme.c_scale10),
                11 => opt_owned(&theme.c_scale11),
                _ => None,
            }
        },
        ScaleKind::Peer => {
            let s = slot % 13;
            if s == 0 {
                let mut t = String::new();
                t.append("transparent");
                return Some(t);
            }
            match s - 1 {
                0 => opt_owned(&theme.c_scale_peer0),
                1 => opt_owned(&theme.c_scale_peer1),
                2 => opt_owned(&theme.c_scale_peer2),
                3 => opt_owned(&theme.c_scale_peer3),
                4 => opt_owned(&theme.c_scale_peer4),
                5 => opt_owned(&theme.c_scale_peer5),
                6 => opt_owned(&theme.c_scale_peer6),
                7 => opt_owned(&theme.c_scale_peer7),
                8 => opt_owned(&theme.c_scale_peer8),
                9 => opt_owned(&theme.c_scale_peer9),
                10 => opt_owned(&theme.c_scale_peer10),
                11 => opt_owned(&theme.c_scale_peer11),
                _ => None,
            }
        },
        ScaleKind::Label => {
            match slot % 12 {
                0 => opt_owned(&theme.c_scale_label0),
                1 => opt_owned(&theme.c_scale_label1),
                2 => opt_owned(&theme.c_scale_label2),
                3 => opt_owned(&theme.c_scale_label3),
                4 => opt_owned(&theme.c_scale_label4),
                5 => opt_owned(&theme.c_scale_label5),
                6 => opt_owned(&theme.c_scale_label6),
                7 => opt_owned(&theme.c_scale_label7),
                8 => opt_owned(&theme.c_scale_label8),
                9 => opt_owned(&theme.c_scale_label9),
                10 => opt_owned(&theme.c_scale_label10),
                11 => opt_owned(&theme.c_scale_label11),
                _ => None,
            }
        },
    }
}

/// The colour of `name` in a scale: its slot's colour, `#000` when the theme
/// has none.
pub open spec fn scale_color(t: ThemeVariables, l: Seq<Seq<char>>, name: Seq<char>, kind: ScaleKind) -> Seq<char> {
    match scale_text(t, slot_after(l, name).1, kind) {
        Some(c) => c,
        None => "#000"@,
    }
}

fn scale_lookup(cache: &mut ScaleCache, theme: &ThemeVariables, kind: ScaleKind, name: &str) -> (r: String)
    ensures
        final(cache).names(kind) == slot_after(old(cache).names(kind), name@).0,
        forall|k: ScaleKind| k != kind ==> final(cache).names(k) == old(cache).names(k),
        r@ == scale_color(*theme, old(cache).names(kind), name@, kind),
{
    let slot = cache.slot_for(kind, name);
    match scale_value(theme, slot, kind) {
        Some(c) => c,
        None => {
            let mut t = String::new();
            t.append("#000");
            t
        },
    }
}

/// The main-scale colour of a section name.
pub fn color_scale(cache: &mut ScaleCache, theme: &ThemeVariables, name: &str) -> (r: String)
    ensures
        final(cache).names(ScaleKind::Main) == slot_after(
            old(cache).names(ScaleKind::Main),
            name@,
        ).0,
        forall|k: ScaleKind| k != ScaleKind::Main ==> final(cache).names(k) == old(cache).names(k),
        r@ == scale_color(*theme, old(cache).names(ScaleKind::Main), name@, ScaleKind::Main),
{
    scale_lookup(cache, theme, ScaleKind::Main, name)
}

/// The peer-scale colour of a section name.
pub fn color_scale_peer(cache: &mut ScaleCache, theme: &ThemeVariables, name: &str) -> (r: String)
    ensures
        final(cache).names(ScaleKind::Peer) == slot_after(
            old(cache).names(ScaleKind::Peer),
            name@,
        ).0,
        forall|k: ScaleKind| k != ScaleKind::Peer ==> final(cache).names(k) == old(cache).names(k),
        r@ == scale_color(*theme, old(cache).names(ScaleKind::Peer), name@, ScaleKind::Peer),
{
    scale_lookup(cache, theme, ScaleKind::Peer, name)
}

/// The label-scale colour of a name.
pub fn color_scale_label(cache: &mut ScaleCache, theme: &ThemeVariables, name: &str) -> (r: String)
    ensures
        final(cache).names(ScaleKind::Label) == slot_after(
            old(cache).names(ScaleKind::Label),
            name@,
        ).0,
        forall|k: ScaleKind| k != ScaleKind::Label ==> final(cache).names(k) == old(cache).names(k),
        r@ == scale_color(*theme, old(cache).names(ScaleKind::Label), name@, ScaleKind::Label),
{
    scale_lookup(cache, theme, ScaleKind::Label, name)
}

/// A name keeps its slot: looking it up again returns the slot it got and
/// leaves the domain as it was.
pub proof fn law_slot_stable(l: Seq<Seq<char>>, n: Seq<char>)
    ensures
        slot_after(slot_after(l, n).0, n) == slot_after(l, n),
{
    lemma_name_slot(l, n);
    if name_slot(l, n) is None {
        let l1 = l.push(n);
        lemma_name_slot(l1, n);
        assert(l1[l.len() as int] == n);
        assert forall|t: int| 0 <= t < l.len() implies l1[t] != n by {
            assert(l1[t] == l[t]);
        }
    }
}

/// The slot of a name holds that name, and earlier slots keep theirs.
pub proof fn lemma_slot_after(l: Seq<Seq<char>>, n: Seq<char>)
    ensures
        slot_after(l, n).1 < slot_after(l, n).0.len(),
        slot_after(l, n).0[slot_after(l, n).1 as int] == n,
        l.len() <= slot_after(l, n).0.len(),
        forall|t: int| 0 <= t < l.len() ==> slot_after(l, n).0[t] == l[t],
{
    lemma_name_slot(l, n);
}

/// Different names get different slots: after looking up `a` and then `b`
/// in a scale, their slots differ.
pub proof fn law_slots_distinct(l: Seq<Seq<char>>, a: Seq<char>, b: Seq<char>)
    requires
        a != b,
    ensures
        slot_after(l, a).1 != slot_after(slot_after(l, a).0, b).1,
{
    let l1 = slot_after(l, a).0;
    lemma_slot_after(l, a);
    lemma_slot_after(l1, b);
}

/// A name looked up in a scale whose domain has no duplicates leaves it
/// without duplicates.
pub proof fn law_slot_keeps_distinct(l: Seq<Seq<char>>, n: Seq<char>)
    requires
        distinct_names(l),
    ensures
        distinct_names(slot_after(l, n).0),
{
    lemma_name_slot(l, n);
}

// ---------------------------------------------------------------------------
// Section and label styles
// ---------------------------------------------------------------------------

/// The inline style of a section's label: fixed layout rules with the
/// label-scale colour of its name as fill, followed by its label
/// declarations with `color:` turned into `fill:`.
pub open spec fn section_label_style_of(fill: Seq<char>, css: Seq<Seq<char>>) -> Seq<char> {
    "dominant-baseline: middle; font-size: 12px; fill:"@ + fill
        + "; white-space: nowrap; overflow: hidden; text-overflow: ellipsis;"@ + replace_all(
        join(tm_styles(css).2, ";"@),
        "color:"@,
        "fill:"@,
    )
}

/// The inline style of a section's value: as for its label, right-aligned
/// at a smaller size.
pub open spec fn section_value_style_of(fill: Seq<char>, css: Seq<Seq<char>>) -> Seq<char> {
    "text-anchor: end; dominant-baseline: middle; font-size: 10px; fill:"@ + fill
        + "; white-space: nowrap; overflow: hidden; text-overflow: ellipsis;"@ + replace_all(
        join(tm_styles(css).2, ";"@),
        "color:"@,
        "fill:"@,
    )
}

/// The style of a section label (see [`section_label_style_of`]); the
/// section's name is looked up in the label scale.
pub fn section_label_style(
    cache: &mut ScaleCache,
    theme: &ThemeVariables,
    name: &str,
    css: &[String],
) -> (r: String)
    ensures
        final(cache).names(ScaleKind::Label) == slot_after(
            old(cache).names(ScaleKind::Label),
            name@,
        ).0,
        forall|k: ScaleKind| k != ScaleKind::Label ==> final(cache).names(k) == old(cache).names(k),
        r@ == section_label_style_of(
            scale_color(*theme, old(cache).names(ScaleKind::Label), name@, ScaleKind::Label),
            views(css@),
        ),
{
    let fill = color_scale_label(cache, theme, name);
    let (_node, _border, label) = styles3string(css);
    proof {
        reveal_strlit("color:");
    }
    let label_fill = replace_str(label.as_str(), "color:", "fill:");
    let mut out = String::new();
    out.append("dominant-baseline: middle; font-size: 12px; fill:");
    out.append(fill.as_str());
    out.append("; white-space: nowrap; overflow: hidden; text-overflow: ellipsis;");
    out.append(label_fill.as_str());
    out
}

/// The style of a section value (see [`section_value_style_of`]).
pub fn section_value_style(
    cache: &mut ScaleCache,
    theme: &ThemeVariables,
    name: &str,
    css: &[String],
) -> (r: String)
    ensures
        final(cache).names(ScaleKind::Label) == slot_after(
            old(cache).names(ScaleKind::Label),
            name@,
        ).0,
        forall|k: ScaleKind| k != ScaleKind::Label ==> final(cache).names(k) == old(cache).names(k),
        r@ == section_value_style_of(
            scale_color(*theme, old(cache).names(ScaleKind::Label), name@, ScaleKind::Label),
            views(css@),
        ),
{
    let fill = color_scale_label(cache, theme, name);
    let (_node, _border, label) = styles3string(css);
    proof {
        reveal_strlit("color:");
    }
    let label_fill = replace_str(label.as_str(), "color:", "fill:");
    let mut out = String::new();
    out.append("text-anchor: end; dominant-baseline: middle; font-size: 10px; fill:");
    out.append(fill.as_str());
    out.append("; white-space: nowrap; overflow: hidden; text-overflow: ellipsis;");
    out.append(label_fill.as_str());
    out
}

/// The declarations of a label-extra list: each piece trimmed, empty ones
/// dropped, and `key:value` rewritten as `key: value` with both sides
/// trimmed.
pub open spec fn label_extra_parts(pieces: Seq<Seq<char>>) -> Seq<Seq<char>>
    decreases pieces.len(),
{
    if pieces.len() == 0 {
        Seq::empty()
    } else {
        let prev = label_extra_parts(pieces.drop_last());
        let d = trim(pieces.last());
        if d.len() == 0 {
            prev
        } else {
            prev.push(
                match char_pos(d, ':') {
                    Some(c) => trim(d.take(c)) + ": "@ + trim(d.skip(c + 1)),
                    None => d,
                },
            )
        }
    }
}

/// The normalised form of a label-extra style string.
pub open spec fn label_extra_of(s: Seq<char>) -> Seq<char> {
    if trim(s).len() == 0 {
        Seq::empty()
    } else {
        join(label_extra_parts(split_char(s, ';')), ";"@)
    }
}

/// Re-format `;`-separated label declarations with one space after each
/// colon (`key: value;key: value`), as a style serialiser does.
pub fn normalise_label_extra(s: &str) -> (r: String)
    ensures
        r@ == label_extra_of(s@),
{
    let v = chars_of(s);
    if trim_chars(&v).len() == 0 {
        return String::new();
    }
    let pieces = split_chars(&v, ';');
    let ghost ps = pieces@.map_values(|x: Vec<char>| x@);
    let mut out = String::new();
    let mut count: usize = 0;
    let mut i: usize = 0;
    while i < pieces.len()
        invariant
            i <= pieces.len(),
            count <= i,
            ps == pieces@.map_values(|x: Vec<char>| x@),
            count == label_extra_parts(ps.take(i as int)).len(),
            out@ == join(label_extra_parts(ps.take(i as int)), ";"@),
        decreases pieces.len() - i,
    {
        assert(ps.take(i + 1).drop_last() == ps.take(i as int));
        assert(ps.take(i + 1).last() == pieces@[i as int]@);
        let d = trim_chars(&pieces[i]);
        if d.len() > 0 {
            proof {
                lemma_char_pos(d@, ':');
            }
            let mut piece = String::new();
            match char_pos_exec(&d, ':') {
                Some(c) => {
                    let k = subvec(&d, 0, c);
                    let val = subvec(&d, c + 1, d.len());
                    assert(k@ == d@.take(c as int));
                    assert(val@ == d@.skip(c + 1));
                    append_chars(&mut piece, &trim_chars(&k));
                    piece.append(": ");
                    append_chars(&mut piece, &trim_chars(&val));
                },
                None => {
                    append_chars(&mut piece, &d);
                },
            }
            proof {
                lemma_join_push(label_extra_parts(ps.take(i as int)), ";"@, piece@);
            }
            push_joined(&mut out, count, ";", piece.as_str());
            count = count + 1;
        }
        i = i + 1;
    }
    assert(ps.take(pieces.len() as int) == ps);
    out
}

/// The decimal digits of `n` are digits and denote `n`.
pub proof fn lemma_decimal_digits(n: nat)
    ensures
        crate::state::all_digit_chars(decimal(n)),
        digits_value(decimal(n)) == n,
        decimal(n).len() > 0,
    decreases n,
{
    if n >= 10 {
        lemma_decimal_digits(n / 10);
        let d = decimal(n);
        assert(d.drop_last() == decimal(n / 10));
        assert(d.last() == ((48 + n % 10) as char));
        assert((d.last() as int) == 48 + n % 10);
        assert(digits_value(d) == digits_value(decimal(n / 10)) * 10 + n % 10);
        assert((n / 10) * 10 + n % 10 == n);
        assert(digits_value(d) == n);
        assert forall|k: int| 0 <= k < d.len() implies '0' <= #[trigger] d[k] && d[k] <= '9' by {
            if k < d.len() - 1 {
                assert(d[k] == decimal(n / 10)[k]);
            }
        }
    } else {
        assert(decimal(n).drop_last() =~= Seq::<char>::empty());
        assert((decimal(n).last() as int) == 48 + n);
        assert(digits_value(decimal(n)) == n) by {
            reveal_with_fuel(digits_value, 2);
        }
    }
}

/// Printing a precision after a `.` and parsing it gives it back.
pub proof fn law_precision_roundtrip(n: nat)
    requires
        n <= usize::MAX,
    ensures
        precision_of("."@ + decimal(n)) == Some(n),
{
    reveal_strlit(".");
    lemma_decimal_digits(n);
    let s = "."@ + decimal(n);
    assert(s.skip(1) =~= decimal(n));
    assert(decimal(n)[0] != '+');
}

// ---------------------------------------------------------------------------
// Number text
// ---------------------------------------------------------------------------

/// `d[i..]` with a `,` before every digit (but the first) that starts a
/// group of three counted from the right.
pub open spec fn group_from(d: Seq<char>, i: int) -> Seq<char>
    decreases d.len() - i,
{
    if i < 0 || i >= d.len() {
        Seq::empty()
    } else {
        (if i != 0 && (d.len() - i) % 3 == 0 {
            seq![',']
        } else {
            Seq::<char>::empty()
        }) + seq![d[i]] + group_from(d, i + 1)
    }
}

/// The text of a printed decimal with thousands separators: the sign, the
/// integer digits grouped by three, then the fraction as printed.
pub open spec fn comma_grouped(f: Seq<char>) -> Seq<char> {
    let (int_part, frac_part) = match char_pos(f, '.') {
        Some(i) => (f.take(i), f.skip(i)),
        None => (f, Seq::<char>::empty()),
    };
    if int_part.len() > 0 && int_part[0] == '-' {
        seq!['-'] + group_from(int_part.skip(1), 0) + frac_part
    } else {
        group_from(int_part, 0) + frac_part
    }
}

fn group_exec(out: &mut String, d: &Vec<char>)
    ensures
        final(out)@ == old(out)@ + group_from(d@, 0),
{
    let n = d.len();
    let mut i: usize = 0;
    while i < n
        invariant
            i <= n,
            n == d.len(),
            old(out)@ + group_from(d@, 0) == out@ + group_from(d@, i as int),
        decreases n - i,
    {
        let ghost before = out@;
        if i != 0 && (n - i) % 3 == 0 {
            push_char(out, ',');
        }
        push_char(out, d[i]);
        assert(before + group_from(d@, i as int) =~= out@ + group_from(d@, i + 1));
        i = i + 1;
    }
}

/// Insert thousands separators into a printed decimal (the text part of a
/// `,` format; see [`comma_grouped`]).
pub fn d3_fmt_comma_text(formatted: &str) -> (r: String)
    ensures
        r@ == comma_grouped(formatted@),
{
    let f = chars_of(formatted);
    proof {
        lemma_char_pos(f@, '.');
    }
    let (int_part, frac_part) = match char_pos_exec(&f, '.') {
        Some(i) => (subvec(&f, 0, i), subvec(&f, i, f.len())),
        None => (subvec(&f, 0, f.len()), Vec::new()),
    };
    assert(int_part@ == match char_pos(f@, '.') {
        Some(i) => f@.take(i),
        None => f@,
    });
    assert(frac_part@ == match char_pos(f@, '.') {
        Some(i) => f@.skip(i),
        None => Seq::<char>::empty(),
    });
    let mut out = String::new();
    if int_part.len() > 0 && int_part[0] == '-' {
        push_char(&mut out, '-');
        let digits = subvec(&int_part, 1, int_part.len());
        assert(digits@ == int_part@.skip(1));
        group_exec(&mut out, &digits);
    } else {
        group_exec(&mut out, &int_part);
    }
    append_chars(&mut out, &frac_part);
    proof {
        assert(out@ =~= comma_grouped(formatted@));
    }
    out
}

/// A printed number with the trailing zeros of its fraction dropped (and
/// the `.` with them when nothing is left), its exponent part kept.
pub open spec fn fraction_trimmed(s: Seq<char>) -> Seq<char> {
    let (mantissa, exp) = match char_pos(s, 'e') {
        Some(i) => (s.take(i), s.skip(i)),
        None => (s, Seq::<char>::empty()),
    };
    (match char_pos(mantissa, '.') {
        Some(dot) => {
            let trimmed = crate::chars::trim_end_char(mantissa.skip(dot + 1), '0');
            if trimmed.len() == 0 {
                mantissa.take(dot)
            } else {
                mantissa.take(dot) + seq!['.'] + trimmed
            }
        },
        None => mantissa,
    }) + exp
}

/// Drop the trailing zeros of the fraction of a printed number (the text
/// part of the default format; see [`fraction_trimmed`]).
pub fn d3_fmt_default_text(s: &str) -> (r: String)
    ensures
        r@ == fraction_trimmed(s@),
{
    let v = chars_of(s);
    proof {
        lemma_char_pos(v@, 'e');
    }
    let (mantissa, exp) = match char_pos_exec(&v, 'e') {
        Some(i) => (subvec(&v, 0, i), subvec(&v, i, v.len())),
        None => (subvec(&v, 0, v.len()), Vec::new()),
    };
    assert(mantissa@ == match char_pos(v@, 'e') {
        Some(i) => v@.take(i),
        None => v@,
    });
    assert(exp@ == match char_pos(v@, 'e') {
        Some(i) => v@.skip(i),
        None => Seq::<char>::empty(),
    });
    proof {
        lemma_char_pos(mantissa@, '.');
    }
    let mut out = String::new();
    match char_pos_exec(&mantissa, '.') {
        Some(dot) => {
            let frac = subvec(&mantissa, dot + 1, mantissa.len());
            assert(frac@ == mantissa@.skip(dot + 1));
            let trimmed = crate::chars::trim_end_char_exec(&frac, '0');
            let int_part = subvec(&mantissa, 0, dot);
            assert(int_part@ == mantissa@.take(dot as int));
            append_chars(&mut out, &int_part);
            if trimmed.len() > 0 {
                push_char(&mut out, '.');
                append_chars(&mut out, &trimmed);
            }
        },
        None => {
            append_chars(&mut out, &mantissa);
        },
    }
    append_chars(&mut out, &exp);
    proof {
        assert(out@ =~= fraction_trimmed(s@));
    }
    out
}

/// A printed number in exponent form with the exponent's sign made
/// explicit: a `+` goes right after the first `e` unless a `-` follows it.
pub open spec fn exp_signed(s: Seq<char>) -> Seq<char> {
    match char_pos(s, 'e') {
        Some(i) => if i + 1 < s.len() && s[i + 1] == '-' {
            s
        } else {
            s.take(i + 1) + seq!['+'] + s.skip(i + 1)
        },
        None => s,
    }
}

/// Give the exponent of a printed number an explicit sign (see
/// [`exp_signed`]).
pub fn d3_fmt_exp_text(s: &str) -> (r: String)
    ensures
        r@ == exp_signed(s@),
{
    let v = chars_of(s);
    proof {
        lemma_char_pos(v@, 'e');
    }
    match char_pos_exec(&v, 'e') {
        Some(i) => {
            if i + 1 < v.len() && v[i + 1] == '-' {
                return string_from_chars(&v);
            }
            let head = subvec(&v, 0, i + 1);
            let tail = subvec(&v, i + 1, v.len());
            let mut out = string_from_chars(&head);
            push_char(&mut out, '+');
            append_chars(&mut out, &tail);
            assert(head@ == v@.take(i + 1));
            assert(tail@ == v@.skip(i + 1));
            out
        },
        None => string_from_chars(&v),
    }
}

} // verus!
