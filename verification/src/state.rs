//! Text and style helpers of the state-diagram renderer: escaping, the
//! `#name;` entity decoder, inline-style merging and splitting, and the
//! `classDef` and state-specific CSS rules.
use vstd::prelude::*;
use crate::shell::{points_base64, points_base64_text, points_view, PointText};
use crate::css::{base_preamble, neo_look_block, neo_look_css, preamble_css};
use crate::state_css::{state_css, state_specific_css};
use crate::theme::{str_or, text_or, ThemeVariables};
use crate::chars::{
    append_chars, char_pos, char_pos_exec, chars_eq, chars_of, find_sub, find_sub_exec, join, lemma_char_pos,
    lemma_join_push, push_char, push_joined, split_char, split_chars, str_eq, string_from_chars,
    subvec, trim, trim_chars, trim_end_char, trim_end_char_exec,
};

verus! {

// ---------------------------------------------------------------------------
// Escaping
// ---------------------------------------------------------------------------

/// The escaped form of one character: `&`, `<` and `>` become entities.
pub open spec fn escape_char(c: char) -> Seq<char> {
    if c == '&' {
        "&amp;"@
    } else if c == '<' {
        "&lt;"@
    } else if c == '>' {
        "&gt;"@
    } else {
        seq![c]
    }
}

/// `s` with `&`, `<` and `>` replaced by their entities.
pub open spec fn escape_text(s: Seq<char>) -> Seq<char>
    decreases s.len(),
{
    if s.len() == 0 {
        Seq::empty()
    } else {
        escape_text(s.drop_last()) + escape_char(s.last())
    }
}

/// Escape `&`, `<` and `>` (in that order of replacement, which is the same
/// as escaping each character once).
pub fn xml_escape(s: &str) -> (r: String)
    ensures
        r@ == escape_text(s@),
{
    let v = chars_of(s);
    let mut out = String::new();
    let mut i: usize = 0;
    while i < v.len()
        invariant
            i <= v.len(),
            v@ == s@,
            out@ == escape_text(v@.take(i as int)),
        decreases v.len() - i,
    {
        let c = v[i];
        if c == '&' {
            out.append("&amp;");
        } else if c == '<' {
            out.append("&lt;");
        } else if c == '>' {
            out.append("&gt;");
        } else {
            push_char(&mut out, c);
        }
        assert(v@.take(i + 1).drop_last() == v@.take(i as int));
        i = i + 1;
    }
    assert(v@.take(v.len() as int) == v@);
    out
}

// ---------------------------------------------------------------------------
// Style declarations
// ---------------------------------------------------------------------------

/// Properties that style the label text rather than the shape.
pub open spec fn label_style_key(k: Seq<char>) -> bool {
    ||| k == "color"@
    ||| k == "font-size"@
    ||| k == "font-family"@
    ||| k == "font-weight"@
    ||| k == "font-style"@
    ||| k == "text-decoration"@
    ||| k == "text-align"@
    ||| k == "text-transform"@
    ||| k == "line-height"@
    ||| k == "letter-spacing"@
    ||| k == "word-spacing"@
    ||| k == "text-shadow"@
    ||| k == "text-overflow"@
    ||| k == "white-space"@
    ||| k == "word-wrap"@
    ||| k == "word-break"@
    ||| k == "overflow-wrap"@
    ||| k == "hyphens"@
}

/// Whether a CSS property styles the label text.
pub fn is_label_style_key(key: &str) -> (r: bool)
    ensures
        r == label_style_key(key@),
{
    str_eq(key, "color") || str_eq(key, "font-size") || str_eq(key, "font-family") || str_eq(
        key,
        "font-weight",
    ) || str_eq(key, "font-style") || str_eq(key, "text-decoration") || str_eq(key, "text-align")
        || str_eq(key, "text-transform") || str_eq(key, "line-height") || str_eq(
        key,
        "letter-spacing",
    ) || str_eq(key, "word-spacing") || str_eq(key, "text-shadow") || str_eq(key, "text-overflow")
        || str_eq(key, "white-space") || str_eq(key, "word-wrap") || str_eq(key, "word-break")
        || str_eq(key, "overflow-wrap") || str_eq(key, "hyphens")
}

/// A `key:value` declaration, trimmed, split at its first `:` with both
/// sides trimmed; `None` when it has no `:`.
pub open spec fn decl_of(prop: Seq<char>) -> Option<(Seq<char>, Seq<char>)> {
    let p = trim(prop);
    match char_pos(p, ':') {
        None => None,
        Some(c) => Some((trim(p.take(c)), trim(p.skip(c + 1)))),
    }
}

/// Executable form of [`decl_of`].
fn decl_of_exec(prop: &Vec<char>) -> (r: Option<(Vec<char>, Vec<char>)>)
    ensures
        r matches Some(x) ==> decl_of(prop@) == Some((x.0@, x.1@)),
        r is None ==> decl_of(prop@) is None,
{
    let p = trim_chars(prop);
    proof {
        lemma_char_pos(p@, ':');
    }
    match char_pos_exec(&p, ':') {
        None => None,
        Some(c) => {
            let head = subvec(&p, 0, c);
            let tail = subvec(&p, c + 1, p.len());
            assert(head@ == p@.take(c as int));
            assert(tail@ == p@.skip(c + 1));
            Some((trim_chars(&head), trim_chars(&tail)))
        },
    }
}

/// What [`styles2_string`] sorts the declarations of a list into: the shape
/// parts, the label parts, and the label parts in the form a `div` style
/// takes them.
pub open spec fn styles2_parts(pieces: Seq<Seq<char>>) -> (
    Seq<Seq<char>>,
    Seq<Seq<char>>,
    Seq<Seq<char>>,
)
    decreases pieces.len(),
{
    if pieces.len() == 0 {
        (Seq::empty(), Seq::empty(), Seq::empty())
    } else {
        let prev = styles2_parts(pieces.drop_last());
        match decl_of(pieces.last()) {
            None => prev,
            Some((k, v)) => if label_style_key(k) {
                (
                    prev.0,
                    prev.1.push(k + ":"@ + v + " !important"@),
                    prev.2.push(k + ": "@ + v + " !important; "@),
                )
            } else {
                (prev.0.push(k + ":"@ + v + " !important"@), prev.1, prev.2)
            },
        }
    }
}

/// Split a comma-separated style list into the shape styles (`;`-joined,
/// each `key:value !important`), the label styles (same form) and the
/// label styles in `div` form (`key: value !important; `, concatenated).
/// Pieces without a `:` are dropped.
pub fn styles2_string(raw_css: &str) -> (r: (String, String, String))
    ensures
        r.0@ == join(styles2_parts(split_char(raw_css@, ',')).0, ";"@),
        r.1@ == join(styles2_parts(split_char(raw_css@, ',')).1, ";"@),
        r.2@ == join(styles2_parts(split_char(raw_css@, ',')).2, Seq::empty()),
{
    let v = chars_of(raw_css);
    let pieces = split_chars(&v, ',');
    let ghost ps = pieces@.map_values(|x: Vec<char>| x@);
    let mut node = String::new();
    let mut label = String::new();
    let mut div = String::new();
    let mut n_node: usize = 0;
    let mut n_label: usize = 0;
    let mut i: usize = 0;
    while i < pieces.len()
        invariant
            i <= pieces.len(),
            ps == pieces@.map_values(|x: Vec<char>| x@),
            ps == split_char(raw_css@, ','),
            n_node <= i,
            n_label <= i,
            n_node == styles2_parts(ps.take(i as int)).0.len(),
            n_label == styles2_parts(ps.take(i as int)).1.len(),
            node@ == join(styles2_parts(ps.take(i as int)).0, ";"@),
            label@ == join(styles2_parts(ps.take(i as int)).1, ";"@),
            div@ == join(styles2_parts(ps.take(i as int)).2, Seq::empty()),
        decreases pieces.len() - i,
    {
        let ghost prev = styles2_parts(ps.take(i as int));
        assert(ps.take(i + 1).drop_last() == ps.take(i as int));
        assert(ps.take(i + 1).last() == pieces@[i as int]@);
        match decl_of_exec(&pieces[i]) {
            None => {},
            Some((k, val)) => {
                let ks = string_from_chars(&k);
                let mut part = String::new();
                append_chars(&mut part, &k);
                part.append(":");
                append_chars(&mut part, &val);
                part.append(" !important");
                if is_label_style_key(ks.as_str()) {
                    proof {
                        lemma_join_push(prev.1, ";"@, part@);
                        lemma_join_push(prev.2, Seq::empty(), k@ + ": "@ + val@ + " !important; "@);
                    }
                    push_joined(&mut label, n_label, ";", part.as_str());
                    n_label = n_label + 1;
                    let mut dpart = String::new();
                    append_chars(&mut dpart, &k);
                    dpart.append(": ");
                    append_chars(&mut dpart, &val);
                    dpart.append(" !important; ");
                    div.append(dpart.as_str());
                    assert(div@ =~= join(prev.2.push(dpart@), Seq::empty()));
                } else {
                    proof {
                        lemma_join_push(prev.0, ";"@, part@);
                    }
                    push_joined(&mut node, n_node, ";", part.as_str());
                    n_node = n_node + 1;
                }
            },
        }
        i = i + 1;
    }
    assert(ps.take(pieces.len() as int) == ps);
    (node, label, div)
}

// ---------------------------------------------------------------------------
// Merging style lists
// ---------------------------------------------------------------------------

/// The declarations of a list of pieces, in order; pieces without a `:` are
/// dropped.
pub open spec fn decls(pieces: Seq<Seq<char>>) -> Seq<(Seq<char>, Seq<char>)>
    decreases pieces.len(),
{
    if pieces.len() == 0 {
        Seq::empty()
    } else {
        match decl_of(pieces.last()) {
            None => decls(pieces.drop_last()),
            Some(d) => decls(pieces.drop_last()).push(d),
        }
    }
}

/// Position of the first declaration of `acc` whose key is `k`.
pub open spec fn key_index(acc: Seq<(Seq<char>, Seq<char>)>, k: Seq<char>) -> Option<int>
    decreases acc.len(),
{
    if acc.len() == 0 {
        None
    } else {
        match key_index(acc.drop_last(), k) {
            Some(j) => Some(j),
            None => if acc.last().0 == k {
                Some(acc.len() - 1)
            } else {
                None
            },
        }
    }
}

pub proof fn lemma_key_index(acc: Seq<(Seq<char>, Seq<char>)>, k: Seq<char>)
    ensures
        key_index(acc, k) matches Some(j) ==> 0 <= j < acc.len() && acc[j].0 == k && forall|t: int|
            0 <= t < j ==> (#[trigger] acc[t]).0 != k,
        key_index(acc, k) is None ==> forall|t: int| 0 <= t < acc.len() ==> (#[trigger] acc[t]).0 != k,
    decreases acc.len(),
{
    if acc.len() > 0 {
        lemma_key_index(acc.drop_last(), k);
        assert forall|t: int| 0 <= t < acc.len() - 1 implies acc[t] == acc.drop_last()[t] by {}
    }
}

/// Put one declaration into a style map: a key already present keeps its
/// place and takes the new value, a new key goes to the end.
pub open spec fn style_put(acc: Seq<(Seq<char>, Seq<char>)>, d: (Seq<char>, Seq<char>)) -> Seq<
    (Seq<char>, Seq<char>),
> {
    match key_index(acc, d.0) {
        Some(j) => acc.update(j, d),
        None => acc.push(d),
    }
}

/// The style map of a declaration list: keys in order of first appearance,
/// each with the value of its last declaration.
pub open spec fn style_map(e: Seq<(Seq<char>, Seq<char>)>) -> Seq<(Seq<char>, Seq<char>)>
    decreases e.len(),
{
    if e.len() == 0 {
        Seq::empty()
    } else {
        style_put(style_map(e.drop_last()), e.last())
    }
}

/// The character views of an optional list of strings.
pub open spec fn opt_strings(o: Option<&[String]>) -> Option<Seq<Seq<char>>> {
    match o {
        Some(v) => Some(v@.map_values(|x: String| x@)),
        None => None,
    }
}

/// The character view of an optional string.
pub open spec fn opt_str(o: Option<&str>) -> Option<Seq<char>> {
    match o {
        Some(s) => Some(s@),
        None => None,
    }
}

/// The declarations of a compiled list (one declaration per string) followed
/// by those of a comma-separated inline list.
pub open spec fn style_entries(compiled: Option<Seq<Seq<char>>>, inline: Option<Seq<char>>) -> Seq<
    (Seq<char>, Seq<char>),
> {
    (match compiled {
        Some(c) => decls(c),
        None => Seq::empty(),
    }) + (match inline {
        Some(s) => decls(split_char(s, ',')),
        None => Seq::empty(),
    })
}

/// `key:value`.
pub open spec fn decl_text(d: (Seq<char>, Seq<char>)) -> Seq<char> {
    d.0 + ":"@ + d.1
}

/// The `key:value` texts of a style map.
pub open spec fn decl_texts(m: Seq<(Seq<char>, Seq<char>)>) -> Seq<Seq<char>> {
    m.map_values(|d: (Seq<char>, Seq<char>)| decl_text(d))
}

/// The character views of a list of declaration pairs.
pub open spec fn pairs_view(v: Seq<(Vec<char>, Vec<char>)>) -> Seq<(Seq<char>, Seq<char>)> {
    v.map_values(|p: (Vec<char>, Vec<char>)| (p.0@, p.1@))
}

fn push_decls(entries: &mut Vec<(Vec<char>, Vec<char>)>, pieces: &Vec<Vec<char>>)
    ensures
        pairs_view(final(entries)@) == pairs_view(old(entries)@) + decls(
            pieces@.map_values(|x: Vec<char>| x@),
        ),
{
    let ghost ps = pieces@.map_values(|x: Vec<char>| x@);
    let ghost start = pairs_view(entries@);
    let mut i: usize = 0;
    while i < pieces.len()
        invariant
            i <= pieces.len(),
            ps == pieces@.map_values(|x: Vec<char>| x@),
            pairs_view(entries@) == start + decls(ps.take(i as int)),
        decreases pieces.len() - i,
    {
        assert(ps.take(i + 1).drop_last() == ps.take(i as int));
        assert(ps.take(i + 1).last() == pieces@[i as int]@);
        let ghost before = entries@;
        match decl_of_exec(&pieces[i]) {
            None => {},
            Some(d) => {
                entries.push(d);
                assert(pairs_view(entries@) =~= pairs_view(before).push((d.0@, d.1@)));
            },
        }
        i = i + 1;
    }
    assert(ps.take(pieces.len() as int) == ps);
}

fn key_index_exec(acc: &Vec<(Vec<char>, Vec<char>)>, k: &Vec<char>) -> (r: Option<usize>)
    ensures
        r matches Some(j) ==> key_index(pairs_view(acc@), k@) == Some(j as int),
        r is None ==> key_index(pairs_view(acc@), k@) is None,
{
    let ghost pv = pairs_view(acc@);
    proof {
        lemma_key_index(pv, k@);
    }
    let mut j: usize = 0;
    while j < acc.len()
        invariant
            j <= acc.len(),
            pv == pairs_view(acc@),
            forall|t: int| 0 <= t < j ==> (#[trigger] pv[t]).0 != k@,
        decreases acc.len() - j,
    {
        if crate::chars::chars_eq(&acc[j].0, k) {
            assert(pv[j as int].0 == k@);
            proof {
                lemma_key_index(pv, k@);
            }
            return Some(j);
        }
        j = j + 1;
    }
    None
}

fn copy_chars(v: &Vec<char>) -> (r: Vec<char>)
    ensures
        r@ == v@,
{
    let r = subvec(v, 0, v.len());
    assert(v@.subrange(0, v.len() as int) == v@);
    r
}

/// Merge the compiled `classDef` declarations and an inline comma-separated
/// style list into one comma-joined `key:value` list: keys keep the order in
/// which they first appear, and the last declaration of a key wins.
pub fn merge_node_styles(compiled: Option<&[String]>, inline: Option<&str>) -> (r: String)
    ensures
        r@ == join(
            decl_texts(style_map(style_entries(opt_strings(compiled), opt_str(inline)))),
            ","@,
        ),
{
    let mut entries: Vec<(Vec<char>, Vec<char>)> = Vec::new();
    let ghost cpart: Seq<(Seq<char>, Seq<char>)> = Seq::empty();
    match compiled {
        Some(props) => {
            let mut pieces: Vec<Vec<char>> = Vec::new();
            let mut i: usize = 0;
            while i < props.len()
                invariant
                    i <= props.len(),
                    pieces@.len() == i,
                    pieces@.map_values(|x: Vec<char>| x@) == props@.map_values(|x: String| x@).take(
                        i as int,
                    ),
                decreases props.len() - i,
            {
                let ghost before = pieces@;
                let c = chars_of(props[i].as_str());
                assert(c@ == props@.map_values(|x: String| x@)[i as int]);
                pieces.push(c);
                let ghost pm = props@.map_values(|x: String| x@);
                let ghost qm = pieces@.map_values(|x: Vec<char>| x@);
                assert forall|t: int| 0 <= t < i + 1 implies #[trigger] qm[t] == pm.take(i + 1)[t] by {
                    if t < i {
                        assert(before.map_values(|x: Vec<char>| x@)[t] == pm.take(i as int)[t]);
                        assert(pieces@[t] == before[t]);
                    }
                }
                assert(qm =~= pm.take(i + 1));
                i = i + 1;
            }
            assert(props@.map_values(|x: String| x@).take(props.len() as int) =~= props@.map_values(
                |x: String| x@,
            ));
            push_decls(&mut entries, &pieces);
            assert(pairs_view(entries@) =~= decls(props@.map_values(|x: String| x@)));
        },
        None => {
            assert(pairs_view(entries@) =~= Seq::<(Seq<char>, Seq<char>)>::empty());
        },
    }
    let ghost mid = pairs_view(entries@);
    match inline {
        Some(raw) => {
            let v = chars_of(raw);
            let pieces = split_chars(&v, ',');
            push_decls(&mut entries, &pieces);
        },
        None => {
            assert(pairs_view(entries@) =~= mid + Seq::<(Seq<char>, Seq<char>)>::empty());
        },
    }
    let ghost ev = pairs_view(entries@);
    assert(ev == style_entries(opt_strings(compiled), opt_str(inline)));
    let mut merged: Vec<(Vec<char>, Vec<char>)> = Vec::new();
    let mut i: usize = 0;
    while i < entries.len()
        invariant
            i <= entries.len(),
            ev == pairs_view(entries@),
            pairs_view(merged@) == style_map(ev.take(i as int)),
            merged@.len() <= i,
        decreases entries.len() - i,
    {
        assert(ev.take(i + 1).drop_last() == ev.take(i as int));
        assert(ev.take(i + 1).last() == ev[i as int]);
        let k = copy_chars(&entries[i].0);
        let val = copy_chars(&entries[i].1);
        let ghost before = merged@;
        proof {
            lemma_key_index(pairs_view(merged@), k@);
        }
        match key_index_exec(&merged, &k) {
            Some(j) => {
                merged.set(j, (k, val));
                assert(pairs_view(merged@) =~= pairs_view(before).update(j as int, (k@, val@)));
            },
            None => {
                merged.push((k, val));
                assert(pairs_view(merged@) =~= pairs_view(before).push((k@, val@)));
            },
        }
        i = i + 1;
    }
    assert(ev.take(entries.len() as int) == ev);
    let ghost texts = decl_texts(pairs_view(merged@));
    let mut out = String::new();
    let mut t: usize = 0;
    while t < merged.len()
        invariant
            t <= merged.len(),
            texts == decl_texts(pairs_view(merged@)),
            out@ == join(texts.take(t as int), ","@),
        decreases merged.len() - t,
    {
        let mut piece = String::new();
        append_chars(&mut piece, &merged[t].0);
        piece.append(":");
        append_chars(&mut piece, &merged[t].1);
        proof {
            lemma_join_push(texts.take(t as int), ","@, piece@);
            assert(texts.take(t + 1) == texts.take(t as int).push(piece@));
        }
        push_joined(&mut out, t, ",", piece.as_str());
        t = t + 1;
    }
    assert(texts.take(merged.len() as int) == texts);
    out
}

/// No key occurs twice in a merged style list.
pub proof fn law_style_map_keys_distinct(e: Seq<(Seq<char>, Seq<char>)>)
    ensures
        forall|a: int, b: int|
            0 <= a < b < style_map(e).len() ==> (#[trigger] style_map(e)[a]).0 != (
            #[trigger] style_map(e)[b]).0,
    decreases e.len(),
{
    if e.len() > 0 {
        let m = style_map(e.drop_last());
        let d = e.last();
        law_style_map_keys_distinct(e.drop_last());
        lemma_key_index(m, d.0);
        let r = style_map(e);
        assert(r == style_put(m, d));
        match key_index(m, d.0) {
            Some(j) => {
                assert forall|a: int, b: int| 0 <= a < b < r.len() implies (#[trigger] r[a]).0 != (
                #[trigger] r[b]).0 by {
                    assert(m[a].0 != m[b].0);
                }
            },
            None => {
                assert forall|a: int, b: int| 0 <= a < b < r.len() implies (#[trigger] r[a]).0 != (
                #[trigger] r[b]).0 by {
                    if b < m.len() {
                        assert(m[a].0 != m[b].0);
                    } else {
                        assert(m[a].0 != d.0);
                    }
                }
            },
        }
    }
}

/// In a merged style list the last declaration of each key wins: the
/// declaration at `i`, when no later one has its key, is in the result.
pub proof fn law_style_map_last_wins(e: Seq<(Seq<char>, Seq<char>)>, i: int)
    requires
        0 <= i < e.len(),
        forall|j: int| i < j < e.len() ==> (#[trigger] e[j]).0 != e[i].0,
    ensures
        exists|t: int| 0 <= t < style_map(e).len() && #[trigger] style_map(e)[t] == e[i],
    decreases e.len(),
{
    let m = style_map(e.drop_last());
    let d = e.last();
    lemma_key_index(m, d.0);
    let r = style_map(e);
    assert(r == style_put(m, d));
    if i == e.len() - 1 {
        match key_index(m, d.0) {
            Some(j) => {
                assert(r[j] == e[i]);
            },
            None => {
                assert(r[m.len() as int] == e[i]);
            },
        }
    } else {
        assert(e[e.len() - 1].0 != e[i].0);
        assert forall|j: int| i < j < e.drop_last().len() implies (
        #[trigger] e.drop_last()[j]).0 != e.drop_last()[i].0 by {
            assert(e.drop_last()[j] == e[j]);
        }
        law_style_map_last_wins(e.drop_last(), i);
        let t = choose|t: int| 0 <= t < m.len() && #[trigger] m[t] == e.drop_last()[i];
        match key_index(m, d.0) {
            Some(j) => {
                assert(j != t);
                assert(r[t] == e[i]);
            },
            None => {
                assert(r[t] == e[i]);
            },
        }
    }
}

// ---------------------------------------------------------------------------
// `classDef` rules
// ---------------------------------------------------------------------------

/// A `classDef` directive: the class name and its comma-separated styles.
pub struct StateClassDef {
    pub name: String,
    pub styles: String,
}

/// The key and value of one `classDef` property: trimmed, trailing `;`
/// removed, split at the first `:`.
pub open spec fn class_prop(piece: Seq<char>) -> Option<(Seq<char>, Seq<char>)> {
    decl_of(trim_end_char(trim(piece), ';'))
}

/// The text-style form of a colour property: `fill` becomes `bgFill`, then
/// `color` becomes `fill`.
pub open spec fn text_style_key(k: Seq<char>) -> Seq<char> {
    crate::chars::replace_all(crate::chars::replace_all(k, "fill"@, "bgFill"@), "color"@, "fill"@)
}

/// All the `key:value` styles of a `classDef`, and the text styles made from
/// those whose key contains `color`.
pub open spec fn class_styles(pieces: Seq<Seq<char>>) -> (Seq<Seq<char>>, Seq<Seq<char>>)
    decreases pieces.len(),
{
    if pieces.len() == 0 {
        (Seq::empty(), Seq::empty())
    } else {
        let prev = class_styles(pieces.drop_last());
        match class_prop(pieces.last()) {
            None => prev,
            Some((k, v)) => (
                prev.0.push(k + ":"@ + v),
                if find_sub(k, 0, "color"@) is Some {
                    prev.1.push(text_style_key(k) + ":"@ + v)
                } else {
                    prev.1
                },
            ),
        }
    }
}

/// Each item followed by `!important;`, concatenated.
pub open spec fn important_list(items: Seq<Seq<char>>) -> Seq<char>
    decreases items.len(),
{
    if items.len() == 0 {
        Seq::empty()
    } else {
        important_list(items.drop_last()) + items.last() + "!important;"@
    }
}

/// The pieces of a `classDef` style list: trimmed, trailing `;` removed,
/// split at `,`.
pub open spec fn class_pieces(styles: Seq<char>) -> Seq<Seq<char>> {
    split_char(trim_end_char(trim(styles), ';'), ',')
}

/// `prefix` followed by the rules of one `classDef`: a `>*` and a ` span`
/// rule with every style, and a ` tspan` rule with the text styles, each
/// left out when it would be empty.
pub open spec fn class_rules(prefix: Seq<char>, id: Seq<char>, name: Seq<char>, styles: Seq<char>) -> Seq<
    char,
> {
    class_rules_of(
        prefix,
        id,
        name,
        class_styles(class_pieces(styles)).0,
        class_styles(class_pieces(styles)).1,
    )
}

/// `prefix` followed by the rules of a class with the given styles and text
/// styles.
pub open spec fn class_rules_of(
    prefix: Seq<char>,
    id: Seq<char>,
    name: Seq<char>,
    st: Seq<Seq<char>>,
    tx: Seq<Seq<char>>,
) -> Seq<char> {
    let p1 = if st.len() > 0 {
        prefix + "#"@ + id + " ."@ + name + ">*{"@ + important_list(st) + "}"@ + "#"@ + id + " ."@
            + name + " span{"@ + important_list(st) + "}"@
    } else {
        prefix
    };
    if tx.len() > 0 {
        p1 + "#"@ + id + " ."@ + name + " tspan{"@ + important_list(tx) + "}"@
    } else {
        p1
    }
}

/// `prefix` followed by the rules of all the definitions, in order.
pub open spec fn class_defs_css(prefix: Seq<char>, id: Seq<char>, defs: Seq<StateClassDef>) -> Seq<
    char,
>
    decreases defs.len(),
{
    if defs.len() == 0 {
        prefix
    } else {
        class_rules(
            class_defs_css(prefix, id, defs.drop_last()),
            id,
            defs.last().name@,
            defs.last().styles@,
        )
    }
}

fn append_important(out: &mut String, items: &Vec<String>)
    ensures
        final(out)@ == old(out)@ + important_list(items@.map_values(|x: String| x@)),
{
    let ghost iv = items@.map_values(|x: String| x@);
    let mut i: usize = 0;
    while i < items.len()
        invariant
            i <= items.len(),
            iv == items@.map_values(|x: String| x@),
            out@ == old(out)@ + important_list(iv.take(i as int)),
        decreases items.len() - i,
    {
        assert(iv.take(i + 1).drop_last() == iv.take(i as int));
        out.append(items[i].as_str());
        out.append("!important;");
        i = i + 1;
    }
    assert(iv.take(items.len() as int) == iv);
}

fn class_styles_exec(styles: &str) -> (r: (Vec<String>, Vec<String>))
    ensures
        r.0@.map_values(|x: String| x@) == class_styles(class_pieces(styles@)).0,
        r.1@.map_values(|x: String| x@) == class_styles(class_pieces(styles@)).1,
{
    let sv = chars_of(styles);
    let t = trim_chars(&sv);
    let raw = trim_end_char_exec(&t, ';');
    let pieces = split_chars(&raw, ',');
    let ghost ps = pieces@.map_values(|x: Vec<char>| x@);
    let color = chars_of("color");
    proof {
        reveal_strlit("fill");
        reveal_strlit("color");
    }
    let mut st: Vec<String> = Vec::new();
    let mut tx: Vec<String> = Vec::new();
    let mut i: usize = 0;
    while i < pieces.len()
        invariant
            i <= pieces.len(),
            ps == pieces@.map_values(|x: Vec<char>| x@),
            ps == class_pieces(styles@),
            color@ == "color"@,
            "fill"@.len() > 0,
            "color"@.len() > 0,
            st@.map_values(|x: String| x@) == class_styles(ps.take(i as int)).0,
            tx@.map_values(|x: String| x@) == class_styles(ps.take(i as int)).1,
        decreases pieces.len() - i,
    {
        assert(ps.take(i + 1).drop_last() == ps.take(i as int));
        assert(ps.take(i + 1).last() == pieces@[i as int]@);
        let p1 = trim_chars(&pieces[i]);
        let p2 = trim_end_char_exec(&p1, ';');
        let ghost st0 = st@;
        let ghost tx0 = tx@;
        match decl_of_exec(&p2) {
            None => {},
            Some((k, v)) => {
                let mut style = String::new();
                append_chars(&mut style, &k);
                style.append(":");
                append_chars(&mut style, &v);
                st.push(style);
                assert(st@.map_values(|x: String| x@) =~= st0.map_values(|x: String| x@).push(
                    k@ + ":"@ + v@,
                ));
                if find_sub_exec(&k, 0, &color).is_some() {
                    let ks = string_from_chars(&k);
                    let k1 = crate::chars::replace_str(ks.as_str(), "fill", "bgFill");
                    let k2 = crate::chars::replace_str(k1.as_str(), "color", "fill");
                    let mut text = String::new();
                    text.append(k2.as_str());
                    text.append(":");
                    append_chars(&mut text, &v);
                    tx.push(text);
                    assert(tx@.map_values(|x: String| x@) =~= tx0.map_values(|x: String| x@).push(
                        text_style_key(k@) + ":"@ + v@,
                    ));
                }
            },
        }
        i = i + 1;
    }
    assert(ps.take(pieces.len() as int) == ps);
    (st, tx)
}

fn append_rule(out: &mut String, id: &str, name: &str, el: &str, items: &Vec<String>)
    ensures
        final(out)@ == old(out)@ + "#"@ + id@ + " ."@ + name@ + el@ + important_list(
            items@.map_values(|x: String| x@),
        ) + "}"@,
{
    out.append("#");
    out.append(id);
    out.append(" .");
    out.append(name);
    out.append(el);
    append_important(out, items);
    out.append("}");
}

fn class_rules_exec(out: &mut String, id: &str, name: &str, styles: &str)
    ensures
        final(out)@ == class_rules(old(out)@, id@, name@, styles@),
{
    let (st, tx) = class_styles_exec(styles);
    if st.len() > 0 {
        append_rule(out, id, name, ">*{", &st);
        append_rule(out, id, name, " span{", &st);
    }
    if tx.len() > 0 {
        append_rule(out, id, name, " tspan{", &tx);
    }
}

fn append_class_def_css(out: &mut String, id: &str, class_defs: &[StateClassDef])
    ensures
        final(out)@ == class_defs_css(old(out)@, id@, class_defs@),
{
    let ghost head = out@;
    let mut i: usize = 0;
    while i < class_defs.len()
        invariant
            i <= class_defs.len(),
            out@ == class_defs_css(head, id@, class_defs@.take(i as int)),
        decreases class_defs.len() - i,
    {
        assert(class_defs@.take(i + 1).drop_last() == class_defs@.take(i as int));
        let def = &class_defs[i];
        class_rules_exec(out, id, def.name.as_str(), def.styles.as_str());
        i = i + 1;
    }
    assert(class_defs@.take(class_defs.len() as int) == class_defs@);
}

/// The CSS of the `classDef` directives: for each class with styles, a
/// `#id .name>*` and a `#id .name span` rule holding every style with
/// `!important`, and, when some key contains `color`, a `#id .name tspan`
/// rule with those styles re-keyed to `fill`.
pub fn class_def_css(id: &str, class_defs: &[StateClassDef]) -> (r: String)
    ensures
        r@ == class_defs_css(Seq::empty(), id@, class_defs@),
{
    let mut out = String::new();
    append_class_def_css(&mut out, id, class_defs);
    out
}

// ---------------------------------------------------------------------------
// Decoding `#name;` entities
// ---------------------------------------------------------------------------

/// The text of a named entity the decoder knows.
pub open spec fn named_entity(name: Seq<char>) -> Option<Seq<char>> {
    if name == "amp"@ {
        Some("&"@)
    } else if name == "lt"@ {
        Some("<"@)
    } else if name == "gt"@ {
        Some(">"@)
    } else if name == "quot"@ {
        Some("\""@)
    } else if name == "apos"@ {
        Some("'"@)
    } else if name == "colon"@ {
        Some(":"@)
    } else if name == "semi"@ {
        Some(";"@)
    } else if name == "period"@ {
        Some("."@)
    } else if name == "comma"@ {
        Some(","@)
    } else if name == "excl"@ {
        Some("!"@)
    } else if name == "quest"@ {
        Some("?"@)
    } else if name == "lpar"@ {
        Some("("@)
    } else if name == "rpar"@ {
        Some(")"@)
    } else if name == "lsqb"@ {
        Some("["@)
    } else if name == "lbrack"@ {
        Some("["@)
    } else if name == "rsqb"@ {
        Some("]"@)
    } else if name == "rbrack"@ {
        Some("]"@)
    } else if name == "lbrace"@ {
        Some("{"@)
    } else if name == "lcub"@ {
        Some("{"@)
    } else if name == "rbrace"@ {
        Some("}"@)
    } else if name == "rcub"@ {
        Some("}"@)
    } else if name == "num"@ {
        Some("#"@)
    } else if name == "dollar"@ {
        Some("$"@)
    } else if name == "sol"@ {
        Some("/"@)
    } else if name == "bsol"@ {
        Some("\\"@)
    } else if name == "verbar"@ {
        Some("|"@)
    } else if name == "vert"@ {
        Some("|"@)
    } else if name == "at"@ {
        Some("@"@)
    } else if name == "equals"@ {
        Some("="@)
    } else if name == "plus"@ {
        Some("+"@)
    } else if name == "minus"@ {
        Some("-"@)
    } else if name == "hyphen"@ {
        Some("-"@)
    } else if name == "ast"@ {
        Some("*"@)
    } else if name == "midast"@ {
        Some("*"@)
    } else if name == "Hat"@ {
        Some("^"@)
    } else if name == "tilde"@ {
        Some("~"@)
    } else if name == "grave"@ {
        Some("`"@)
    } else if name == "lowbar"@ {
        Some("_"@)
    } else if name == "underbar"@ {
        Some("_"@)
    } else if name == "space"@ {
        Some(" "@)
    } else if name == "nbsp"@ {
        Some("\u{00A0}"@)
    } else if name == "ndash"@ {
        Some("\u{2013}"@)
    } else if name == "mdash"@ {
        Some("\u{2014}"@)
    } else if name == "laquo"@ {
        Some("\u{00AB}"@)
    } else if name == "raquo"@ {
        Some("\u{00BB}"@)
    } else {
        None
    }
}

/// Executable form of [`named_entity`].
fn named_entity_exec(name: &str) -> (r: Option<&'static str>)
    ensures
        r matches Some(t) ==> named_entity(name@) == Some(t@),
        r is None ==> named_entity(name@) is None,
{
    if str_eq(name, "amp") {
        Some("&")
    } else if str_eq(name, "lt") {
        Some("<")
    } else if str_eq(name, "gt") {
        Some(">")
    } else if str_eq(name, "quot") {
        Some("\"")
    } else if str_eq(name, "apos") {
        Some("'")
    } else if str_eq(name, "colon") {
        Some(":")
    } else if str_eq(name, "semi") {
        Some(";")
    } else if str_eq(name, "period") {
        Some(".")
    } else if str_eq(name, "comma") {
        Some(",")
    } else if str_eq(name, "excl") {
        Some("!")
    } else if str_eq(name, "quest") {
        Some("?")
    } else if str_eq(name, "lpar") {
        Some("(")
    } else if str_eq(name, "rpar") {
        Some(")")
    } else if str_eq(name, "lsqb") {
        Some("[")
    } else if str_eq(name, "lbrack") {
        Some("[")
    } else if str_eq(name, "rsqb") {
        Some("]")
    } else if str_eq(name, "rbrack") {
        Some("]")
    } else if str_eq(name, "lbrace") {
        Some("{")
    } else if str_eq(name, "lcub") {
        Some("{")
    } else if str_eq(name, "rbrace") {
        Some("}")
    } else if str_eq(name, "rcub") {
        Some("}")
    } else if str_eq(name, "num") {
        Some("#")
    } else if str_eq(name, "dollar") {
        Some("$")
    } else if str_eq(name, "sol") {
        Some("/")
    } else if str_eq(name, "bsol") {
        Some("\\")
    } else if str_eq(name, "verbar") {
        Some("|")
    } else if str_eq(name, "vert") {
        Some("|")
    } else if str_eq(name, "at") {
        Some("@")
    } else if str_eq(name, "equals") {
        Some("=")
    } else if str_eq(name, "plus") {
        Some("+")
    } else if str_eq(name, "minus") {
        Some("-")
    } else if str_eq(name, "hyphen") {
        Some("-")
    } else if str_eq(name, "ast") {
        Some("*")
    } else if str_eq(name, "midast") {
        Some("*")
    } else if str_eq(name, "Hat") {
        Some("^")
    } else if str_eq(name, "tilde") {
        Some("~")
    } else if str_eq(name, "grave") {
        Some("`")
    } else if str_eq(name, "lowbar") {
        Some("_")
    } else if str_eq(name, "underbar") {
        Some("_")
    } else if str_eq(name, "space") {
        Some(" ")
    } else if str_eq(name, "nbsp") {
        Some("\u{00A0}")
    } else if str_eq(name, "ndash") {
        Some("\u{2013}")
    } else if str_eq(name, "mdash") {
        Some("\u{2014}")
    } else if str_eq(name, "laquo") {
        Some("\u{00AB}")
    } else if str_eq(name, "raquo") {
        Some("\u{00BB}")
    } else {
        None
    }
}

/// Every character is an ASCII digit (true of the empty text).
pub open spec fn all_digit_chars(s: Seq<char>) -> bool {
    forall|k: int| 0 <= k < s.len() ==> '0' <= #[trigger] s[k] && s[k] <= '9'
}

/// The number a string of decimal digits denotes.
pub open spec fn digits_value(s: Seq<char>) -> nat
    decreases s.len(),
{
    if s.len() == 0 {
        0
    } else {
        digits_value(s.drop_last()) * 10 + ((s.last() as int) - 48) as nat
    }
}

/// A number that names a Unicode scalar value (what `char::from_u32`
/// accepts).
pub open spec fn is_scalar_value(n: int) -> bool {
    (0 <= n && n < 0xD800) || (0xE000 <= n && n <= 0x10FFFF)
}

/// Calls `char::from_u32` from std, which by its documentation returns the
/// character with code point `cp`, or `None` when `cp` is a surrogate or
/// above `0x10FFFF`.
#[verifier::external_body]
fn char_from_u32(cp: u32) -> (r: Option<char>)
    ensures
        r is Some <==> is_scalar_value(cp as int),
        r matches Some(c) ==> c == cp as char,
{
    char::from_u32(cp)
}

/// What an entity name between `#` and `;` decodes to: a numeric name that
/// fits in `u32` becomes its character (or `&#name;` when it is no scalar
/// value); a digit string that does not parse (empty, or too large) and an
/// unknown name stay `#name;`; a known name becomes its text.
pub open spec fn entity_text(name: Seq<char>) -> Seq<char> {
    if all_digit_chars(name) {
        if name.len() > 0 && digits_value(name) <= u32::MAX {
            if is_scalar_value(digits_value(name) as int) {
                seq![(digits_value(name) as u32) as char]
            } else {
                "&#"@ + name + ";"@
            }
        } else {
            "#"@ + name + ";"@
        }
    } else {
        match named_entity(name) {
            Some(t) => t,
            None => "#"@ + name + ";"@,
        }
    }
}

/// The decoded form of `s[i..]`: a `#` with a `;` somewhere after it
/// decodes the text between them (see [`entity_text`]) and resumes after
/// the `;`; every other character is kept as it is.
pub open spec fn decode_from(s: Seq<char>, i: int) -> Seq<char>
    decreases s.len() - i,
{
    if i < 0 || i >= s.len() {
        Seq::empty()
    } else if s[i] == '#' && char_pos(s.skip(i + 1), ';') is Some {
        proof {
            lemma_char_pos(s.skip(i + 1), ';');
        }
        let k = char_pos(s.skip(i + 1), ';')->0;
        entity_text(s.subrange(i + 1, i + 1 + k)) + decode_from(s, i + 2 + k)
    } else {
        seq![s[i]] + decode_from(s, i + 1)
    }
}

/// The decoded form of a label: unchanged when it holds no `#`.
pub open spec fn decode_entities(s: Seq<char>) -> Seq<char> {
    if !s.contains('#') {
        s
    } else {
        decode_from(s, 0)
    }
}

fn entity_text_exec(out: &mut String, name: &Vec<char>)
    ensures
        final(out)@ == old(out)@ + entity_text(name@),
{
    let ns = string_from_chars(name);
    let mut all_digits = true;
    let mut fits = true;
    let mut val: u64 = 0;
    let mut j: usize = 0;
    while j < name.len()
        invariant
            j <= name.len(),
            all_digits <==> all_digit_chars(name@.take(j as int)),
            all_digits ==> (fits <==> digits_value(name@.take(j as int)) <= u32::MAX),
            all_digits && fits ==> val == digits_value(name@.take(j as int)),
            val <= u32::MAX,
        decreases name.len() - j,
    {
        let c = name[j];
        let ghost pre = name@.take(j as int);
        assert(name@.take(j + 1).drop_last() == pre);
        assert(name@.take(j + 1).last() == c);
        if !('0' <= c && c <= '9') {
            all_digits = false;
        } else if all_digits && fits {
            let d = (c as u32 - 48) as u64;
            if val > (4294967295u64 - d) / 10 {
                fits = false;
            } else {
                val = val * 10 + d;
            }
        }
        proof {
            if all_digits {
                assert forall|k: int| 0 <= k < j + 1 implies '0' <= #[trigger] name@.take(j + 1)[k]
                    && name@.take(j + 1)[k] <= '9' by {
                    if k < j {
                        assert(name@.take(j + 1)[k] == pre[k]);
                    }
                }
            } else if '0' <= c && c <= '9' {
                let k0 = choose|k: int| 0 <= k < j && !('0' <= #[trigger] pre[k] && pre[k] <= '9');
                assert(name@.take(j + 1)[k0] == pre[k0]);
            } else {
                assert(!('0' <= name@.take(j + 1)[j as int] && name@.take(j + 1)[j as int] <= '9'));
            }
        }
        j = j + 1;
    }
    assert(name@.take(name.len() as int) == name@);
    if all_digits {
        if name.len() > 0 && fits {
            match char_from_u32(val as u32) {
                Some(ch) => {
                    push_char(out, ch);
                },
                None => {
                    out.append("&#");
                    out.append(ns.as_str());
                    out.append(";");
                },
            }
        } else {
            out.append("#");
            out.append(ns.as_str());
            out.append(";");
        }
    } else {
        match named_entity_exec(ns.as_str()) {
            Some(t) => {
                out.append(t);
            },
            None => {
                out.append("#");
                out.append(ns.as_str());
                out.append(";");
            },
        }
    }
}

/// Decode `#name;` entities: numeric ones to their character (or `&#N;`
/// when no character has that number), known names to their text, unknown
/// names left as they are; text outside entities is kept as it is.
pub fn decode_mermaid_entities(s: &str) -> (r: String)
    ensures
        r@ == decode_entities(s@),
{
    let v = chars_of(s);
    proof {
        lemma_char_pos(v@, '#');
    }
    if char_pos_exec(&v, '#').is_none() {
        assert(!v@.contains('#'));
        return string_from_chars(&v);
    }
    assert(v@[char_pos(v@, '#')->0] == '#');
    let n = v.len();
    let mut out = String::new();
    let mut i: usize = 0;
    while i < n
        invariant
            i <= n,
            n == v.len(),
            v@ == s@,
            decode_from(v@, 0) == out@ + decode_from(v@, i as int),
        decreases n - i,
    {
        let ghost before = out@;
        if v[i] == '#' {
            let mut j = i + 1;
            while j < n && v[j] != ';'
                invariant
                    i < j <= n,
                    n == v.len(),
                    forall|t: int| i < t < j ==> v@[t] != ';',
                decreases n - j,
            {
                j = j + 1;
            }
            let ghost rest = v@.skip(i + 1);
            proof {
                lemma_char_pos(rest, ';');
            }
            if j < n {
                assert(rest[j - i - 1] == ';');
                assert forall|q: int| 0 <= q < j - i - 1 implies rest[q] != ';' by {
                    assert(rest[q] == v@[i + 1 + q]);
                }
                assert(char_pos(rest, ';') == Some(j - i - 1));
                let name = subvec(&v, i + 1, j);
                entity_text_exec(&mut out, &name);
                i = j + 1;
                continue;
            } else {
                assert forall|q: int| 0 <= q < rest.len() implies rest[q] != ';' by {
                    assert(rest[q] == v@[i + 1 + q]);
                }
                assert(char_pos(rest, ';') is None);
            }
        }
        push_char(&mut out, v[i]);
        i = i + 1;
    }
    out
}

// ---------------------------------------------------------------------------
// Edge paths, clusters and edge-label bodies
// ---------------------------------------------------------------------------

/// A laid-out transition with its text attributes; the vertices carry
/// printed coordinates.
pub struct EdgeText {
    pub id: String,
    pub thickness: Option<String>,
    pub pattern: Option<String>,
    pub classes: Option<String>,
    pub points: Option<Vec<PointText>>,
}

/// The `class` attribute of an edge path.
pub open spec fn edge_class(e: EdgeText) -> Seq<char> {
    " edge-thickness-"@ + text_or(e.thickness, "normal"@) + " edge-pattern-"@ + text_or(
        e.pattern,
        "solid"@,
    ) + " "@ + text_or(e.classes, "transition"@)
}

/// A note edge: its classes contain `note-edge`.
pub open spec fn is_note_edge(e: EdgeText) -> bool {
    match e.classes {
        Some(c) => find_sub(c@, 0, "note-edge"@) is Some,
        None => false,
    }
}

/// The `<path>` of an edge with path data `d`; empty when the edge has fewer
/// than two vertices. Note edges get no arrowhead.
pub open spec fn edge_path_svg(id: Seq<char>, e: EdgeText, d: Seq<char>) -> Seq<char> {
    match e.points {
        None => Seq::empty(),
        Some(ps) => if ps@.len() < 2 {
            Seq::empty()
        } else {
            "<path d=\""@ + d + "\" id=\""@ + id + "-"@ + e.id@ + "\" class=\""@ + edge_class(e)
                + "\" style=\"fill:none;;;fill:none\" data-edge=\"true\" data-et=\"edge\" data-id=\""@
                + e.id@ + "\" data-points=\""@ + points_base64_text(points_view(ps@))
                + "\" data-look=\"classic\""@ + if is_note_edge(e) {
                "></path>"@
            } else {
                " marker-end=\"url(#"@ + id + "_stateDiagram-barbEnd)\"></path>"@
            }
        },
    }
}

/// The `<path>` element of a transition: its class names its thickness,
/// pattern and classes, `data-points` holds the base64 JSON of its
/// vertices, and every edge but a note edge ends in the barb marker. `d` is
/// the curve through the vertices.
pub fn emit_edge_path(id: &str, e: &EdgeText, d: &str) -> (r: String)
    ensures
        r@ == edge_path_svg(id@, *e, d@),
{
    let points = match &e.points {
        None => {
            return String::new();
        },
        Some(p) => p,
    };
    if points.len() < 2 {
        return String::new();
    }
    let b64 = points_base64(points.as_slice());
    let note = match &e.classes {
        Some(c) => {
            let cv = chars_of(c.as_str());
            let nv = chars_of("note-edge");
            find_sub_exec(&cv, 0, &nv).is_some()
        },
        None => false,
    };
    let mut out = String::new();
    out.append("<path d=\"");
    out.append(d);
    out.append("\" id=\"");
    out.append(id);
    out.append("-");
    out.append(e.id.as_str());
    out.append("\" class=\"");
    out.append(" edge-thickness-");
    out.append(str_or(&e.thickness, "normal"));
    out.append(" edge-pattern-");
    out.append(str_or(&e.pattern, "solid"));
    out.append(" ");
    out.append(str_or(&e.classes, "transition"));
    out.append(
        "\" style=\"fill:none;;;fill:none\" data-edge=\"true\" data-et=\"edge\" data-id=\"",
    );
    out.append(e.id.as_str());
    out.append("\" data-points=\"");
    out.append(b64.as_str());
    out.append("\" data-look=\"classic\"");
    if note {
        out.append("></path>");
    } else {
        out.append(" marker-end=\"url(#");
        out.append(id);
        out.append("_stateDiagram-barbEnd)\"></path>");
    }
    assert(out@ =~= edge_path_svg(id@, *e, d@));
    out
}

/// A composite state or note group with its printed geometry: the corner of
/// its box in absolute coordinates and relative to its centre, and its size.
pub struct ClusterText {
    pub id: String,
    pub dom_id: Option<String>,
    pub shape: Option<String>,
    pub label: Option<String>,
    pub css_classes: Option<String>,
    pub abs_x: String,
    pub abs_y: String,
    pub rel_x: String,
    pub rel_y: String,
    pub width: String,
    pub height: String,
}

/// The element id of a cluster: its DOM id, or its id.
pub open spec fn cluster_dom_id(n: ClusterText) -> Seq<char> {
    text_or(n.dom_id, n.id@)
}

/// A note group: its shape is `noteGroup`.
pub open spec fn is_note_group(n: ClusterText) -> bool {
    match n.shape {
        Some(s) => s@ == "noteGroup"@,
        None => false,
    }
}

/// The group of a cluster: a note group is a bare rectangle at its absolute
/// position; any other cluster is a state group with an outer rectangle
/// around its centre and an HTML label.
pub open spec fn cluster_svg(svg_id: Seq<char>, n: ClusterText) -> Seq<char> {
    if is_note_group(n) {
        "<g class=\"note-cluster\" id=\""@ + svg_id + "-"@ + escape_text(cluster_dom_id(n))
            + "\"><rect x=\""@ + n.abs_x@ + "\" y=\""@ + n.abs_y@ + "\" width=\""@ + n.width@
            + "\" height=\""@ + n.height@ + "\" fill=\"none\"></rect></g>"@
    } else {
        "<g class=\" statediagram-state "@ + text_or(n.css_classes, "statediagram-cluster"@)
            + "\" id=\""@ + svg_id + "-"@ + escape_text(cluster_dom_id(n)) + "\" data-id=\""@
            + escape_text(cluster_dom_id(n))
            + "\" data-look=\"classic\"><g><rect class=\"outer\" x=\""@ + n.rel_x@
            + "\" y=\""@ + n.rel_y@ + "\" width=\""@ + n.width@ + "\" height=\""@ + n.height@
            + "\" data-look=\"classic\"></rect></g><g class=\"cluster-label\"><foreignObject width=\"0\" height=\"0\"><div xmlns=\"http://www.w3.org/1999/xhtml\">"@
            + escape_text(text_or(n.label, Seq::empty())) + "</div></foreignObject></g></g>"@
    }
}

/// The SVG group of a composite state (or of a note group).
pub fn emit_cluster(svg_id: &str, n: &ClusterText) -> (r: String)
    ensures
        r@ == cluster_svg(svg_id@, *n),
{
    let dom_id = str_or(&n.dom_id, n.id.as_str());
    let esc_id = xml_escape(dom_id);
    let note = match &n.shape {
        Some(sh) => str_eq(sh.as_str(), "noteGroup"),
        None => false,
    };
    let mut out = String::new();
    if note {
        out.append("<g class=\"note-cluster\" id=\"");
        out.append(svg_id);
        out.append("-");
        out.append(esc_id.as_str());
        out.append("\"><rect x=\"");
        out.append(n.abs_x.as_str());
        out.append("\" y=\"");
        out.append(n.abs_y.as_str());
        out.append("\" width=\"");
        out.append(n.width.as_str());
        out.append("\" height=\"");
        out.append(n.height.as_str());
        out.append("\" fill=\"none\"></rect></g>");
    } else {
        let label = xml_escape(str_or(&n.label, ""));
        out.append("<g class=\" statediagram-state ");
        out.append(str_or(&n.css_classes, "statediagram-cluster"));
        out.append("\" id=\"");
        out.append(svg_id);
        out.append("-");
        out.append(esc_id.as_str());
        out.append("\" data-id=\"");
        out.append(esc_id.as_str());
        out.append("\" data-look=\"classic\"><g><rect class=\"outer\" x=\"");
        out.append(n.rel_x.as_str());
        out.append("\" y=\"");
        out.append(n.rel_y.as_str());
        out.append("\" width=\"");
        out.append(n.width.as_str());
        out.append("\" height=\"");
        out.append(n.height.as_str());
        out.append(
            "\" data-look=\"classic\"></rect></g><g class=\"cluster-label\"><foreignObject width=\"0\" height=\"0\"><div xmlns=\"http://www.w3.org/1999/xhtml\">",
        );
        out.append(label.as_str());
        out.append("</div></foreignObject></g></g>");
        proof {
            reveal_strlit("");
        }
    }
    assert(out@ =~= cluster_svg(svg_id@, *n));
    out
}

/// The escaped lines of a label, each escaped and joined with `<br/>`.
pub open spec fn escaped_lines(lines: Seq<Seq<char>>) -> Seq<Seq<char>> {
    lines.map_values(|l: Seq<char>| escape_text(l))
}

/// The HTML body of an edge label and whether it goes inside a `<p>`: the
/// label is decoded; an empty label has an empty body, a blank one keeps its
/// blanks inside a `<p>`, and any other has its lines escaped and joined
/// with `<br/>`.
pub open spec fn edge_label_body_of(raw: Seq<char>) -> (Seq<char>, bool) {
    let decoded = decode_entities(raw);
    if trim(decoded).len() == 0 {
        if decoded.len() == 0 {
            (Seq::empty(), false)
        } else {
            ("<p>"@ + escape_text(decoded) + "</p>"@, false)
        }
    } else {
        (join(escaped_lines(split_char(decoded, '\n')), "<br/>"@), true)
    }
}

/// The body of an edge label's HTML and whether it is to be wrapped in a
/// paragraph (see [`edge_label_body_of`]).
pub fn edge_label_body(raw: &str) -> (r: (String, bool))
    ensures
        r.0@ == edge_label_body_of(raw@).0,
        r.1 == edge_label_body_of(raw@).1,
{
    let decoded = decode_mermaid_entities(raw);
    let dv = chars_of(decoded.as_str());
    let tv = trim_chars(&dv);
    if tv.len() == 0 {
        if dv.len() == 0 {
            return (String::new(), false);
        }
        let mut out = String::new();
        out.append("<p>");
        let e = xml_escape(decoded.as_str());
        out.append(e.as_str());
        out.append("</p>");
        return (out, false);
    }
    let lines = split_chars(&dv, '\n');
    let ghost lv = lines@.map_values(|x: Vec<char>| x@);
    let ghost ev = escaped_lines(lv);
    let mut out = String::new();
    let mut i: usize = 0;
    while i < lines.len()
        invariant
            i <= lines.len(),
            lv == lines@.map_values(|x: Vec<char>| x@),
            ev == escaped_lines(lv),
            out@ == join(ev.take(i as int), "<br/>"@),
        decreases lines.len() - i,
    {
        let line = string_from_chars(&lines[i]);
        let e = xml_escape(line.as_str());
        proof {
            assert(ev.take(i + 1) == ev.take(i as int).push(e@));
            lemma_join_push(ev.take(i as int), "<br/>"@, e@);
        }
        push_joined(&mut out, i, "<br/>", e.as_str());
        i = i + 1;
    }
    assert(ev.take(lines.len() as int) == ev);
    (out, true)
}

// ---------------------------------------------------------------------------
// The style block
// ---------------------------------------------------------------------------

/// The `<style>` element of a state diagram: the shared preamble, the
/// state rules, the neo-look rules, and the `classDef` rules when there are
/// any.
pub open spec fn state_style_block(id: Seq<char>, t: ThemeVariables, defs: Seq<StateClassDef>) -> Seq<
    char,
> {
    class_defs_css("<style>"@ + preamble_css(id, t) + state_css(id, t) + neo_look_css(id, t), id, defs)
        + "</style>"@
}

/// Build the `<style>` element of a state diagram (see
/// [`state_style_block`]).
pub fn style_block(id: &str, theme: &ThemeVariables, class_defs: &[StateClassDef]) -> (r: String)
    ensures
        r@ == state_style_block(id@, *theme, class_defs@),
{
    let mut s = String::new();
    s.append("<style>");
    let pre = base_preamble(id, theme);
    s.append(pre.as_str());
    let st = state_specific_css(id, theme);
    s.append(st.as_str());
    let neo = neo_look_block(id, theme);
    s.append(neo.as_str());
    proof {
        reveal_strlit("<style>");
    }
    assert(s@ =~= "<style>"@ + preamble_css(id@, *theme) + state_css(id@, *theme) + neo_look_css(
        id@,
        *theme,
    ));
    if class_defs.len() > 0 {
        append_class_def_css(&mut s, id, class_defs);
    }
    s.append("</style>");
    s
}

// ---------------------------------------------------------------------------
// Laws of escaping
// ---------------------------------------------------------------------------

/// Escaped text holds no `<` and no `>`: markup cannot survive escaping.
pub proof fn law_escape_no_angle_brackets(s: Seq<char>)
    ensures
        !escape_text(s).contains('<'),
        !escape_text(s).contains('>'),
    decreases s.len(),
{
    reveal_strlit("&amp;");
    reveal_strlit("&lt;");
    reveal_strlit("&gt;");
    if s.len() > 0 {
        law_escape_no_angle_brackets(s.drop_last());
        let a = escape_text(s.drop_last());
        let b = escape_char(s.last());
        assert forall|k: int| 0 <= k < (a + b).len() implies (a + b)[k] != '<' && (a + b)[k]
            != '>' by {
            if k < a.len() {
                assert((a + b)[k] == a[k]);
            } else {
                assert((a + b)[k] == b[k - a.len()]);
            }
        }
    }
}

/// Text without `&`, `<` and `>` is left as it is by escaping.
pub proof fn law_escape_plain_unchanged(s: Seq<char>)
    requires
        !s.contains('&'),
        !s.contains('<'),
        !s.contains('>'),
    ensures
        escape_text(s) == s,
    decreases s.len(),
{
    if s.len() > 0 {
        assert(!s.drop_last().contains('&') && !s.drop_last().contains('<') && !s.drop_last().contains(
            '>',
        )) by {
            assert forall|k: int| 0 <= k < s.drop_last().len() implies s.drop_last()[k] == s[k] by {}
        }
        law_escape_plain_unchanged(s.drop_last());
        assert(s.last() == s[s.len() - 1]);
        assert(s.drop_last() + seq![s.last()] =~= s);
    }
}

// ---------------------------------------------------------------------------
// Start and end markers, node shapes
// ---------------------------------------------------------------------------

/// Where a state node stands: its ids and its printed centre.
pub struct NodePlacement {
    pub id: String,
    pub dom_id: Option<String>,
    pub x: String,
    pub y: String,
}

/// The element id of a node: its DOM id, or its id.
pub open spec fn node_dom_id(n: NodePlacement) -> Seq<char> {
    text_or(n.dom_id, n.id@)
}

/// The opening group of a state node: `<g class="…" id="<svg id>-<node
/// id>" data-look="classic" transform="translate(x, y)">`.
pub open spec fn node_group_open(class: Seq<char>, id: Seq<char>, n: NodePlacement) -> Seq<char> {
    "<g class=\""@ + class + "\" id=\""@ + id + "-"@ + escape_text(node_dom_id(n))
        + "\" data-look=\"classic\" transform=\"translate("@ + n.x@ + ", "@ + n.y@ + ")\">"@
}

fn append_node_group_open(out: &mut String, class: &str, id: &str, n: &NodePlacement)
    ensures
        final(out)@ == old(out)@ + node_group_open(class@, id@, *n),
{
    let nid = xml_escape(str_or(&n.dom_id, n.id.as_str()));
    out.append("<g class=\"");
    out.append(class);
    out.append("\" id=\"");
    out.append(id);
    out.append("-");
    out.append(nid.as_str());
    out.append("\" data-look=\"classic\" transform=\"translate(");
    out.append(n.x.as_str());
    out.append(", ");
    out.append(n.y.as_str());
    out.append(")\">");
}

/// The start marker of a state diagram: a circle of the given printed
/// radius and width.
pub open spec fn state_start_svg(id: Seq<char>, n: NodePlacement, r: Seq<char>, w: Seq<char>) -> Seq<
    char,
> {
    node_group_open("node default"@, id, n) + "<circle class=\"state-start\" r=\""@ + r
        + "\" width=\""@ + w + "\" height=\""@ + w + "\"></circle></g>"@
}

/// Emit the start marker (see [`state_start_svg`]).
pub fn emit_state_start(id: &str, n: &NodePlacement, r: &str, w: &str) -> (out: String)
    ensures
        out@ == state_start_svg(id@, *n, r@, w@),
{
    let mut out = String::new();
    append_node_group_open(&mut out, "node default", id, n);
    out.append("<circle class=\"state-start\" r=\"");
    out.append(r);
    out.append("\" width=\"");
    out.append(w);
    out.append("\" height=\"");
    out.append(w);
    out.append("\"></circle></g>");
    out
}

/// The outer ring of the end marker, drawn as a closed curve.
pub const STATE_END_OUTER_PATH: &'static str = "M7 0 C7 0.40517908122283747, 6.964012880168563 0.816513743121899, 6.893654271085456 1.2155372436685123 C6.823295662002349 1.6145607442151257, 6.716427752933756 2.013397210557766, 6.5778483455013586 2.394141003279681 C6.439268938068961 2.7748847960015954, 6.26476736710249 3.149104622578984, 6.062177826491071 3.4999999999999996 C5.859588285879653 3.8508953774210153, 5.622755194947063 4.189128084166967, 5.362311101832846 4.499513267805774 C5.10186700871863 4.809898451444582, 4.809898451444583 5.10186700871863, 4.499513267805775 5.362311101832846 C4.189128084166968 5.622755194947063, 3.8508953774210166 5.859588285879652, 3.500000000000001 6.06217782649107 C3.149104622578985 6.264767367102489, 2.7748847960015963 6.439268938068961, 2.3941410032796817 6.5778483455013586 C2.013397210557767 6.716427752933756, 1.6145607442151264 6.823295662002349, 1.2155372436685128 6.893654271085456 C0.8165137431218992 6.964012880168563, 0.4051790812228379 7, 4.286263797015736e-16 7 C-0.405179081222837 7, -0.8165137431218985 6.964012880168563, -1.2155372436685121 6.893654271085456 C-1.6145607442151257 6.823295662002349, -2.0133972105577667 6.716427752933756, -2.394141003279681 6.5778483455013586 C-2.774884796001595 6.439268938068961, -3.149104622578983 6.26476736710249, -3.4999999999999982 6.062177826491071 C-3.8508953774210135 5.859588285879653, -4.189128084166966 5.6227551949470636, -4.499513267805773 5.362311101832848 C-4.809898451444581 5.101867008718632, -5.101867008718627 4.809898451444586, -5.362311101832843 4.499513267805779 C-5.622755194947058 4.189128084166971, -5.859588285879649 3.8508953774210206, -6.062177826491068 3.5000000000000053 C-6.264767367102486 3.14910462257899, -6.439268938068958 2.774884796001602, -6.577848345501356 2.394141003279688 C-6.716427752933754 2.0133972105577738, -6.823295662002347 1.614560744215134, -6.893654271085454 1.215537243668521 C-6.9640128801685615 0.816513743121908, -6.999999999999999 0.4051790812228472, -7 1.0183126166254463e-14 C-7.000000000000001 -0.40517908122282686, -6.964012880168565 -0.8165137431218878, -6.893654271085459 -1.215537243668501 C-6.823295662002352 -1.6145607442151142, -6.716427752933759 -2.0133972105577542, -6.577848345501363 -2.394141003279669 C-6.439268938068967 -2.7748847960015834, -6.264767367102496 -3.149104622578972, -6.062177826491078 -3.4999999999999876 C-5.859588285879661 -3.8508953774210033, -5.6227551949470715 -4.1891280841669545, -5.362311101832856 -4.499513267805763 C-5.10186700871864 -4.809898451444571, -4.809898451444594 -5.101867008718621, -4.499513267805787 -5.362311101832837 C-4.189128084166979 -5.622755194947054, -3.850895377421028 -5.859588285879643, -3.5000000000000133 -6.062177826491062 C-3.1491046225789985 -6.264767367102482, -2.774884796001611 -6.439268938068954, -2.3941410032796973 -6.577848345501353 C-2.0133972105577835 -6.716427752933752, -1.6145607442151435 -6.823295662002345, -1.2155372436685306 -6.893654271085453 C-0.8165137431219176 -6.9640128801685615, -0.40517908122285695 -6.999999999999999, -1.9937625952807352e-14 -7 C0.4051790812228171 -7.000000000000001, 0.8165137431218781 -6.964012880168565, 1.2155372436684913 -6.89365427108546 C1.6145607442151044 -6.823295662002354, 2.013397210557745 -6.716427752933763, 2.3941410032796595 -6.5778483455013665 C2.774884796001574 -6.43926893806897, 3.149104622578963 -6.2647673671025, 3.499999999999979 -6.062177826491083 C3.8508953774209953 -5.859588285879665, 4.189128084166947 -5.622755194947077, 4.499513267805756 -5.362311101832862 C4.809898451444564 -5.1018670087186475, 5.101867008718613 -4.809898451444602, 5.362311101832829 -4.499513267805796 C5.622755194947046 -4.189128084166989, 5.859588285879637 -3.8508953774210393, 6.062177826491056 -3.500000000000025 C6.2647673671024755 -3.1491046225790105, 6.439268938068949 -2.774884796001623, 6.577848345501348 -2.3941410032797092 C6.716427752933747 -2.0133972105577955, 6.823295662002342 -1.6145607442151562, 6.893654271085451 -1.2155372436685434 C6.96401288016856 -0.8165137431219307, 6.982275711847575 -0.2025895406114567, 7 -3.2800750208310675e-14 C7.017724288152425 0.2025895406113911, 7.017724288152424 -0.2025895406114242, 7 0";

/// The inner dot of the end marker, drawn as a closed curve.
pub const STATE_END_INNER_PATH: &'static str = "M2.5 0 C2.5 0.14470681472244193, 2.487147457203058 0.29161205111496386, 2.46201938253052 0.4341204441673258 C2.436891307857982 0.5766288372196877, 2.3987241974763416 0.7190704323420595, 2.3492315519647713 0.8550503583141718 C2.299738906453201 0.991030284286284, 2.2374169168223177 1.124680222349637, 2.165063509461097 1.2499999999999998 C2.092710102099876 1.3753197776503625, 2.0081268553382365 1.496117172916774, 1.915111107797445 1.6069690242163481 C1.8220953602566536 1.7178208755159223, 1.7178208755159226 1.8220953602566536, 1.6069690242163484 1.915111107797445 C1.4961171729167742 2.0081268553382365, 1.375319777650363 2.0927101020998755, 1.2500000000000002 2.1650635094610964 C1.1246802223496375 2.2374169168223172, 0.9910302842862845 2.2997389064532, 0.8550503583141721 2.349231551964771 C0.7190704323420597 2.3987241974763416, 0.576628837219688 2.436891307857982, 0.43412044416732604 2.46201938253052 C0.291612051114964 2.487147457203058, 0.14470681472244212 2.5, 1.5308084989341916e-16 2.5 C-0.1447068147224418 2.5, -0.2916120511149638 2.487147457203058, -0.43412044416732576 2.46201938253052 C-0.5766288372196877 2.436891307857982, -0.7190704323420595 2.3987241974763416, -0.8550503583141718 2.3492315519647713 C-0.991030284286284 2.299738906453201, -1.124680222349637 2.2374169168223177, -1.2499999999999996 2.165063509461097 C-1.375319777650362 2.092710102099876, -1.4961171729167735 2.008126855338237, -1.6069690242163475 1.9151111077974459 C-1.7178208755159214 1.8220953602566548, -1.8220953602566525 1.7178208755159234, -1.9151111077974439 1.6069690242163495 C-2.008126855338235 1.4961171729167755, -2.0927101020998746 1.3753197776503645, -2.1650635094610955 1.250000000000002 C-2.2374169168223164 1.1246802223496395, -2.2997389064531992 0.9910302842862865, -2.34923155196477 0.8550503583141743 C-2.3987241974763407 0.7190704323420621, -2.436891307857981 0.5766288372196907, -2.4620193825305194 0.434120444167329 C-2.487147457203058 0.29161205111496724, -2.5 0.14470681472244545, -2.5 3.636830773662308e-15 C-2.5 -0.14470681472243818, -2.4871474572030587 -0.2916120511149599, -2.4620193825305208 -0.4341204441673218 C-2.436891307857983 -0.5766288372196837, -2.398724197476343 -0.7190704323420553, -2.3492315519647726 -0.8550503583141675 C-2.2997389064532023 -0.9910302842862798, -2.23741691682232 -1.1246802223496328, -2.165063509461099 -1.2499999999999956 C-2.092710102099878 -1.3753197776503583, -2.00812685533824 -1.4961171729167695, -1.9151111077974488 -1.606969024216344 C-1.8220953602566576 -1.7178208755159183, -1.7178208755159263 -1.8220953602566505, -1.6069690242163523 -1.915111107797442 C-1.4961171729167784 -2.008126855338234, -1.3753197776503672 -2.092710102099873, -1.2500000000000047 -2.1650635094610937 C-1.1246802223496422 -2.2374169168223146, -0.9910302842862897 -2.299738906453198, -0.8550503583141776 -2.3492315519647686 C-0.7190704323420656 -2.3987241974763394, -0.5766288372196942 -2.4368913078579806, -0.43412044416733236 -2.462019382530519 C-0.29161205111497057 -2.4871474572030574, -0.1447068147224489 -2.4999999999999996, -7.120580697431198e-15 -2.5 C0.14470681472243463 -2.5000000000000004, 0.29161205111495647 -2.487147457203059, 0.4341204441673183 -2.4620193825305217 C0.5766288372196802 -2.436891307857984, 0.7190704323420518 -2.3987241974763442, 0.8550503583141642 -2.349231551964774 C0.9910302842862766 -2.2997389064532037, 1.1246802223496295 -2.2374169168223212, 1.2499999999999925 -2.165063509461101 C1.3753197776503554 -2.0927101020998804, 1.4961171729167668 -2.008126855338242, 1.6069690242163412 -1.915111107797451 C1.7178208755159157 -1.82209536025666, 1.8220953602566472 -1.7178208755159294, 1.915111107797439 -1.6069690242163557 C2.0081268553382308 -1.496117172916782, 2.09271010209987 -1.3753197776503712, 2.1650635094610915 -1.2500000000000089 C2.237416916822313 -1.1246802223496466, 2.299738906453196 -0.9910302842862939, 2.3492315519647673 -0.855050358314182 C2.3987241974763385 -0.71907043234207, 2.4368913078579792 -0.5766288372196986, 2.462019382530518 -0.4341204441673369 C2.487147457203057 -0.29161205111497523, 2.4936698970884197 -0.07235340736123454, 2.5 -1.1714553645825241e-14 C2.5063301029115803 0.07235340736121111, 2.50633010291158 -0.07235340736122292, 2.5 0";

/// The end marker of a state diagram: an outer ring filled with the main
/// background and stroked with the line colour around an inner dot in the
/// node border colour.
pub open spec fn state_end_svg(id: Seq<char>, n: NodePlacement, t: ThemeVariables) -> Seq<char> {
    node_group_open("node default"@, id, n) + "<g class=\"outer-path\"><path d=\""@
        + STATE_END_OUTER_PATH@ + "\" stroke=\"none\" stroke-width=\"0\" fill=\""@ + text_or(
        t.main_bkg,
        "#ECECFF"@,
    ) + "\" style=\"\"></path><path d=\""@ + STATE_END_OUTER_PATH@ + "\" stroke=\""@ + text_or(
        t.line_color,
        "#333333"@,
    ) + "\" stroke-width=\"2\" fill=\"none\" stroke-dasharray=\"0 0\" style=\"\"></path><g><path d=\""@
        + STATE_END_INNER_PATH@ + "\" stroke=\"none\" stroke-width=\"0\" fill=\""@ + text_or(
        t.node_border,
        "#9370DB"@,
    ) + "\" style=\"\"></path><path d=\""@ + STATE_END_INNER_PATH@ + "\" stroke=\""@ + text_or(
        t.node_border,
        "#9370DB"@,
    ) + "\" stroke-width=\"2\" fill=\"none\" stroke-dasharray=\"0 0\" style=\"\"></path></g></g></g>"@
}

/// Emit the end marker (see [`state_end_svg`]).
pub fn emit_state_end(id: &str, n: &NodePlacement, theme: &ThemeVariables) -> (out: String)
    ensures
        out@ == state_end_svg(id@, *n, *theme),
{
    let mut out = String::new();
    append_node_group_open(&mut out, "node default", id, n);
    out.append("<g class=\"outer-path\"><path d=\"");
    out.append(STATE_END_OUTER_PATH);
    out.append("\" stroke=\"none\" stroke-width=\"0\" fill=\"");
    out.append(str_or(&theme.main_bkg, "#ECECFF"));
    out.append("\" style=\"\"></path><path d=\"");
    out.append(STATE_END_OUTER_PATH);
    out.append("\" stroke=\"");
    out.append(str_or(&theme.line_color, "#333333"));
    out.append(
        "\" stroke-width=\"2\" fill=\"none\" stroke-dasharray=\"0 0\" style=\"\"></path><g><path d=\"",
    );
    out.append(STATE_END_INNER_PATH);
    out.append("\" stroke=\"none\" stroke-width=\"0\" fill=\"");
    out.append(str_or(&theme.node_border, "#9370DB"));
    out.append("\" style=\"\"></path><path d=\"");
    out.append(STATE_END_INNER_PATH);
    out.append("\" stroke=\"");
    out.append(str_or(&theme.node_border, "#9370DB"));
    out.append(
        "\" stroke-width=\"2\" fill=\"none\" stroke-dasharray=\"0 0\" style=\"\"></path></g></g></g>",
    );
    out
}

/// The way a state node is drawn, chosen by its shape name.
#[derive(Debug, Clone, Copy, PartialEq, Eq, Structural)]
pub enum StateNodeShape {
    Start,
    End,
    ForkJoin,
    State,
    RectWithTitle,
    Note,
    Other,
}

/// The drawing of a shape name (a missing name draws a plain state).
pub open spec fn node_shape_of(shape: Option<Seq<char>>) -> StateNodeShape {
    let s = match shape {
        Some(x) => x,
        None => "state"@,
    };
    if s == "stateStart"@ || s == "state_start"@ || s == "start"@ {
        StateNodeShape::Start
    } else if s == "stateEnd"@ || s == "state_end"@ || s == "end"@ {
        StateNodeShape::End
    } else if s == "forkJoin"@ || s == "fork_join"@ || s == "fork"@ || s == "join"@ {
        StateNodeShape::ForkJoin
    } else if s == "state"@ {
        StateNodeShape::State
    } else if s == "rectWithTitle"@ {
        StateNodeShape::RectWithTitle
    } else if s == "note"@ {
        StateNodeShape::Note
    } else {
        StateNodeShape::Other
    }
}

/// Law: the shape names `stateStart` / `state_start` / `start` draw a start
/// state, `stateEnd` / `state_end` / `end` an end state, `forkJoin` /
/// `fork_join` / `fork` / `join` a fork/join bar, `state` (or no name) a
/// plain state, `rectWithTitle` a titled rectangle, `note` a note; any other
/// name is drawn by none of these.
pub proof fn law_node_shape_names(name: Seq<char>)
    ensures
        node_shape_of(None) == StateNodeShape::State,
        node_shape_of(Some("stateStart"@)) == StateNodeShape::Start,
        node_shape_of(Some("state_start"@)) == StateNodeShape::Start,
        node_shape_of(Some("start"@)) == StateNodeShape::Start,
        node_shape_of(Some("stateEnd"@)) == StateNodeShape::End,
        node_shape_of(Some("state_end"@)) == StateNodeShape::End,
        node_shape_of(Some("end"@)) == StateNodeShape::End,
        node_shape_of(Some("forkJoin"@)) == StateNodeShape::ForkJoin,
        node_shape_of(Some("fork_join"@)) == StateNodeShape::ForkJoin,
        node_shape_of(Some("fork"@)) == StateNodeShape::ForkJoin,
        node_shape_of(Some("join"@)) == StateNodeShape::ForkJoin,
        node_shape_of(Some("state"@)) == StateNodeShape::State,
        node_shape_of(Some("rectWithTitle"@)) == StateNodeShape::RectWithTitle,
        node_shape_of(Some("note"@)) == StateNodeShape::Note,
        (name != "stateStart"@ && name != "state_start"@ && name != "start"@ && name != "stateEnd"@ && name != "state_end"@ && name != "end"@ && name != "forkJoin"@ && name != "fork_join"@ && name != "fork"@ && name != "join"@ && name != "state"@ && name != "rectWithTitle"@ && name != "note"@) ==> node_shape_of(Some(name)) == StateNodeShape::Other,
{
    reveal_strlit("stateStart");
    reveal_strlit("state_start");
    reveal_strlit("start");
    reveal_strlit("stateEnd");
    reveal_strlit("state_end");
    reveal_strlit("end");
    reveal_strlit("forkJoin");
    reveal_strlit("fork_join");
    reveal_strlit("fork");
    reveal_strlit("join");
    reveal_strlit("state");
    reveal_strlit("rectWithTitle");
    reveal_strlit("note");
    assert("stateEnd"@.len() != "stateStart"@.len());
    assert("stateEnd"@.len() != "state_start"@.len());
    assert("stateEnd"@.len() != "start"@.len());
    assert("state_end"@.len() != "stateStart"@.len());
    assert("state_end"@.len() != "state_start"@.len());
    assert("state_end"@.len() != "start"@.len());
    assert("end"@.len() != "stateStart"@.len());
    assert("end"@.len() != "state_start"@.len());
    assert("end"@.len() != "start"@.len());
    assert("forkJoin"@.len() != "stateStart"@.len());
    assert("forkJoin"@.len() != "state_start"@.len());
    assert("forkJoin"@.len() != "start"@.len());
    assert("forkJoin"@[0] != "stateEnd"@[0]);
    assert("forkJoin"@.len() != "state_end"@.len());
    assert("forkJoin"@.len() != "end"@.len());
    assert("fork_join"@.len() != "stateStart"@.len());
    assert("fork_join"@.len() != "state_start"@.len());
    assert("fork_join"@.len() != "start"@.len());
    assert("fork_join"@.len() != "stateEnd"@.len());
    assert("fork_join"@[0] != "state_end"@[0]);
    assert("fork_join"@.len() != "end"@.len());
    assert("fork"@.len() != "stateStart"@.len());
    assert("fork"@.len() != "state_start"@.len());
    assert("fork"@.len() != "start"@.len());
    assert("fork"@.len() != "stateEnd"@.len());
    assert("fork"@.len() != "state_end"@.len());
    assert("fork"@.len() != "end"@.len());
    assert("join"@.len() != "stateStart"@.len());
    assert("join"@.len() != "state_start"@.len());
    assert("join"@.len() != "start"@.len());
    assert("join"@.len() != "stateEnd"@.len());
    assert("join"@.len() != "state_end"@.len());
    assert("join"@.len() != "end"@.len());
    assert("state"@.len() != "stateStart"@.len());
    assert("state"@.len() != "state_start"@.len());
    assert("state"@[3] != "start"@[3]);
    assert("state"@.len() != "stateEnd"@.len());
    assert("state"@.len() != "state_end"@.len());
    assert("state"@.len() != "end"@.len());
    assert("state"@.len() != "forkJoin"@.len());
    assert("state"@.len() != "fork_join"@.len());
    assert("state"@.len() != "fork"@.len());
    assert("state"@.len() != "join"@.len());
    assert("rectWithTitle"@.len() != "stateStart"@.len());
    assert("rectWithTitle"@.len() != "state_start"@.len());
    assert("rectWithTitle"@.len() != "start"@.len());
    assert("rectWithTitle"@.len() != "stateEnd"@.len());
    assert("rectWithTitle"@.len() != "state_end"@.len());
    assert("rectWithTitle"@.len() != "end"@.len());
    assert("rectWithTitle"@.len() != "forkJoin"@.len());
    assert("rectWithTitle"@.len() != "fork_join"@.len());
    assert("rectWithTitle"@.len() != "fork"@.len());
    assert("rectWithTitle"@.len() != "join"@.len());
    assert("rectWithTitle"@.len() != "state"@.len());
    assert("note"@.len() != "stateStart"@.len());
    assert("note"@.len() != "state_start"@.len());
    assert("note"@.len() != "start"@.len());
    assert("note"@.len() != "stateEnd"@.len());
    assert("note"@.len() != "state_end"@.len());
    assert("note"@.len() != "end"@.len());
    assert("note"@.len() != "forkJoin"@.len());
    assert("note"@.len() != "fork_join"@.len());
    assert("note"@[0] != "fork"@[0]);
    assert("note"@[0] != "join"@[0]);
    assert("note"@.len() != "state"@.len());
    assert("note"@.len() != "rectWithTitle"@.len());
}

/// Choose how a state node is drawn from its shape name.
pub fn node_shape(shape: Option<&str>) -> (r: StateNodeShape)
    ensures
        r == node_shape_of(crate::state::opt_str(shape)),
        shape is None ==> r == StateNodeShape::State,
        (shape matches Some(x) && x@ == "stateStart"@) ==> r == StateNodeShape::Start,
        (shape matches Some(x) && x@ == "state_start"@) ==> r == StateNodeShape::Start,
        (shape matches Some(x) && x@ == "start"@) ==> r == StateNodeShape::Start,
        (shape matches Some(x) && x@ == "stateEnd"@) ==> r == StateNodeShape::End,
        (shape matches Some(x) && x@ == "state_end"@) ==> r == StateNodeShape::End,
        (shape matches Some(x) && x@ == "end"@) ==> r == StateNodeShape::End,
        (shape matches Some(x) && x@ == "forkJoin"@) ==> r == StateNodeShape::ForkJoin,
        (shape matches Some(x) && x@ == "fork_join"@) ==> r == StateNodeShape::ForkJoin,
        (shape matches Some(x) && x@ == "fork"@) ==> r == StateNodeShape::ForkJoin,
        (shape matches Some(x) && x@ == "join"@) ==> r == StateNodeShape::ForkJoin,
        (shape matches Some(x) && x@ == "state"@) ==> r == StateNodeShape::State,
        (shape matches Some(x) && x@ == "rectWithTitle"@) ==> r == StateNodeShape::RectWithTitle,
        (shape matches Some(x) && x@ == "note"@) ==> r == StateNodeShape::Note,
        (shape matches Some(x) && x@ != "stateStart"@ && x@ != "state_start"@ && x@ != "start"@ && x@ != "stateEnd"@ && x@ != "state_end"@ && x@ != "end"@ && x@ != "forkJoin"@ && x@ != "fork_join"@ && x@ != "fork"@ && x@ != "join"@ && x@ != "state"@ && x@ != "rectWithTitle"@ && x@ != "note"@) ==> r == StateNodeShape::Other,
{
    proof {
        law_node_shape_names(
            match shape {
                Some(x) => x@,
                None => Seq::empty(),
            },
        );
    }
    let s = match shape {
        Some(x) => x,
        None => "state",
    };
    if str_eq(s, "stateStart") || str_eq(s, "state_start") || str_eq(s, "start") {
        StateNodeShape::Start
    } else if str_eq(s, "stateEnd") || str_eq(s, "state_end") || str_eq(s, "end") {
        StateNodeShape::End
    } else if str_eq(s, "forkJoin") || str_eq(s, "fork_join") || str_eq(s, "fork") || str_eq(
        s,
        "join",
    ) {
        StateNodeShape::ForkJoin
    } else if str_eq(s, "state") {
        StateNodeShape::State
    } else if str_eq(s, "rectWithTitle") {
        StateNodeShape::RectWithTitle
    } else if str_eq(s, "note") {
        StateNodeShape::Note
    } else {
        StateNodeShape::Other
    }
}

// ---------------------------------------------------------------------------
// A state drawn as a rectangle with a title and a description
// ---------------------------------------------------------------------------

/// `s` without its spaces.
pub open spec fn without_spaces(s: Seq<char>) -> Seq<char>
    decreases s.len(),
{
    if s.len() == 0 {
        Seq::empty()
    } else if s.last() == ' ' {
        without_spaces(s.drop_last())
    } else {
        without_spaces(s.drop_last()).push(s.last())
    }
}

/// A declaration that reads `font-weight:bold` once trimmed, stripped of
/// trailing `;` and of its spaces.
pub open spec fn is_bold_decl(p: Seq<char>) -> bool {
    without_spaces(trim_end_char(trim(p), ';')) == "font-weight:bold"@
}

/// A comma-separated style list sets a bold font weight.
pub open spec fn style_is_bold(style: Seq<char>) -> bool {
    exists|j: int| 0 <= j < split_char(style, ',').len() && is_bold_decl(#[trigger] split_char(style, ',')[j])
}

fn drop_spaces(v: &Vec<char>) -> (r: Vec<char>)
    ensures
        r@ == without_spaces(v@),
{
    let mut r: Vec<char> = Vec::new();
    let mut i: usize = 0;
    while i < v.len()
        invariant
            i <= v.len(),
            r@ == without_spaces(v@.take(i as int)),
        decreases v.len() - i,
    {
        proof {
            assert(v@.take(i + 1).drop_last() =~= v@.take(i as int));
            assert(v@.take(i + 1).last() == v@[i as int]);
        }
        if v[i] != ' ' {
            r.push(v[i]);
        }
        i = i + 1;
    }
    assert(v@.take(v.len() as int) =~= v@);
    r
}

/// Whether a merged style list makes the label bold (some declaration reads
/// `font-weight:bold`, spaces and trailing `;` aside); the label is then
/// measured in the bold font.
pub fn label_is_bold(style: &str) -> (r: bool)
    ensures
        r == style_is_bold(style@),
{
    let v = chars_of(style);
    let parts = split_chars(&v, ',');
    let ghost ps = split_char(style@, ',');
    let target = chars_of("font-weight:bold");
    let mut i: usize = 0;
    while i < parts.len()
        invariant
            i <= parts.len(),
            parts@.map_values(|x: Vec<char>| x@) == ps,
            ps == split_char(style@, ','),
            target@ == "font-weight:bold"@,
            forall|j: int| 0 <= j < i ==> !is_bold_decl(#[trigger] ps[j]),
        decreases parts.len() - i,
    {
        assert(parts@[i as int]@ == ps[i as int]);
        let t = trim_chars(&parts[i]);
        let t2 = trim_end_char_exec(&t, ';');
        let t3 = drop_spaces(&t2);
        if chars_eq(&t3, &target) {
            assert(is_bold_decl(ps[i as int]));
            return true;
        }
        i = i + 1;
    }
    false
}

/// A state drawn as a rectangle with a title line, a divider and a
/// description, with its printed geometry: its centre (`x`, `y`), the outer
/// rectangle, the divider's right end and height, the label group's offset,
/// the line height, and the width and offset of the title and of the
/// description.
pub struct RectWithTitleText {
    pub id: String,
    pub dom_id: Option<String>,
    pub css_classes: Option<String>,
    pub css_compiled_styles: Option<Vec<String>>,
    pub label_style: Option<String>,
    pub label: Option<String>,
    pub description: Option<Vec<String>>,
    pub x: String,
    pub y: String,
    pub rect_x: String,
    pub rect_y: String,
    pub rect_width: String,
    pub rect_height: String,
    pub divider_x2: String,
    pub divider_y: String,
    pub label_x: String,
    pub label_y: String,
    pub line_height: String,
    pub title_width: String,
    pub title_x: String,
    pub desc_width: String,
    pub desc_x: String,
    pub desc_y: String,
}

/// The strings of an optional list.
pub open spec fn opt_string_list(o: Option<Vec<String>>) -> Option<Seq<Seq<char>>> {
    match o {
        Some(v) => Some(v@.map_values(|x: String| x@)),
        None => None,
    }
}

/// The text of an optional string.
pub open spec fn opt_string(o: Option<String>) -> Option<Seq<char>> {
    match o {
        Some(s) => Some(s@),
        None => None,
    }
}

/// The merged style of the state: its compiled `classDef` declarations and
/// its inline style, as [`merge_node_styles`] merges them.
pub open spec fn rect_title_style(n: RectWithTitleText) -> Seq<char> {
    join(
        decl_texts(style_map(style_entries(opt_string_list(n.css_compiled_styles), opt_string(n.label_style)))),
        ","@,
    )
}

/// The shape part of the merged style (empty when there is no style).
pub open spec fn rect_title_shape_style(n: RectWithTitleText) -> Seq<char> {
    let st = rect_title_style(n);
    if st.len() == 0 {
        Seq::empty()
    } else {
        join(styles2_parts(split_char(st, ',')).0, ";"@)
    }
}

/// The label part of the merged style (empty when there is no style).
pub open spec fn rect_title_label_style(n: RectWithTitleText) -> Seq<char> {
    let st = rect_title_style(n);
    if st.len() == 0 {
        Seq::empty()
    } else {
        join(styles2_parts(split_char(st, ',')).1, ";"@)
    }
}

/// The description lines joined with `<br/>`.
pub open spec fn rect_title_desc(n: RectWithTitleText) -> Seq<char> {
    match opt_string_list(n.description) {
        Some(lines) => join(lines, "<br/>"@),
        None => Seq::empty(),
    }
}

/// The opening of the node group: class `node` and the state's classes
/// (`undefined` when it has none), its escaped DOM id, its centre.
pub open spec fn rect_title_open(svg_id: Seq<char>, n: RectWithTitleText) -> Seq<char> {
    "<g class=\"node "@ + text_or(n.css_classes, "undefined"@) + "\" id=\""@ + svg_id + "-"@
        + escape_text(text_or(n.dom_id, n.id@)) + "\" data-look=\"classic\" transform=\"translate("@
        + n.x@ + ", "@ + n.y@ + ")\">"@
}

/// The outer rectangle, with the shape style, and the divider under the title.
pub open spec fn rect_title_frame(n: RectWithTitleText) -> Seq<char> {
    "<g><rect class=\"outer title-state\" style=\""@ + rect_title_shape_style(n) + "\" x=\""@
        + n.rect_x@ + "\" y=\""@ + n.rect_y@ + "\" width=\""@ + n.rect_width@ + "\" height=\""@
        + n.rect_height@ + "\"></rect><line class=\"divider\" x1=\""@ + n.rect_x@ + "\" x2=\""@
        + n.divider_x2@ + "\" y1=\""@ + n.divider_y@ + "\" y2=\""@ + n.divider_y@
        + "\"></line></g>"@
}

/// An HTML label box holding one escaped paragraph.
pub open spec fn label_box(width: Seq<char>, height: Seq<char>, dx: Seq<char>, dy: Seq<char>, text: Seq<char>) -> Seq<char> {
    "<foreignObject width=\""@ + width + "\" height=\""@ + height + "\" transform=\"translate( "@
        + dx + ", "@ + dy
        + ")\"><div style=\"display: table-cell; white-space: nowrap; line-height: 1.5;\" xmlns=\"http://www.w3.org/1999/xhtml\"><span class=\"nodeLabel \"><p>"@
        + escape_text(text) + "</p></span></div></foreignObject>"@
}

/// The label group, with the label style: the title box and the description box.
pub open spec fn rect_title_label(n: RectWithTitleText) -> Seq<char> {
    "<g class=\"label\" style=\""@ + rect_title_label_style(n) + "\" transform=\"translate("@
        + n.label_x@ + ", "@ + n.label_y@ + ")\">"@ + label_box(
        n.title_width@,
        n.line_height@,
        n.title_x@,
        "0"@,
        text_or(n.label, Seq::empty()),
    ) + label_box(n.desc_width@, n.line_height@, n.desc_x@, n.desc_y@, rect_title_desc(n))
        + "</g>"@
}

/// The whole state group.
pub open spec fn rect_with_title_svg(svg_id: Seq<char>, n: RectWithTitleText) -> Seq<char> {
    rect_title_open(svg_id, n) + rect_title_frame(n) + rect_title_label(n) + "</g>"@
}

fn push_label_box(out: &mut String, width: &str, height: &str, dx: &str, dy: &str, text: &str)
    ensures
        final(out)@ == old(out)@ + label_box(width@, height@, dx@, dy@, text@),
{
    out.append("<foreignObject width=\"");
    out.append(width);
    out.append("\" height=\"");
    out.append(height);
    out.append("\" transform=\"translate( ");
    out.append(dx);
    out.append(", ");
    out.append(dy);
    out.append(
        ")\"><div style=\"display: table-cell; white-space: nowrap; line-height: 1.5;\" xmlns=\"http://www.w3.org/1999/xhtml\"><span class=\"nodeLabel \"><p>",
    );
    let t = xml_escape(text);
    out.append(t.as_str());
    out.append("</p></span></div></foreignObject>");
    assert(out@ =~= old(out)@ + label_box(width@, height@, dx@, dy@, text@));
}

fn join_lines(lines: &Vec<String>) -> (r: String)
    ensures
        r@ == join(lines@.map_values(|x: String| x@), "<br/>"@),
{
    let ghost ls = lines@.map_values(|x: String| x@);
    let mut r = String::new();
    let mut i: usize = 0;
    while i < lines.len()
        invariant
            i <= lines.len(),
            ls == lines@.map_values(|x: String| x@),
            r@ == join(ls.take(i as int), "<br/>"@),
        decreases lines.len() - i,
    {
        proof {
            lemma_join_push(ls.take(i as int), "<br/>"@, ls[i as int]);
            assert(ls.take(i + 1) =~= ls.take(i as int).push(ls[i as int]));
        }
        push_joined(&mut r, i, "<br/>", lines[i].as_str());
        i = i + 1;
    }
    assert(ls.take(lines.len() as int) =~= ls);
    r
}

fn rect_title_styles(n: &RectWithTitleText) -> (r: (String, String))
    ensures
        r.0@ == rect_title_shape_style(*n),
        r.1@ == rect_title_label_style(*n),
{
    let compiled: Option<&[String]> = match &n.css_compiled_styles {
        Some(v) => Some(v.as_slice()),
        None => None,
    };
    let inline: Option<&str> = match &n.label_style {
        Some(st) => Some(st.as_str()),
        None => None,
    };
    let merged = merge_node_styles(compiled, inline);
    assert(opt_strings(compiled) == opt_string_list(n.css_compiled_styles));
    assert(opt_str(inline) == opt_string(n.label_style));
    assert(merged@ == rect_title_style(*n));
    proof {
        reveal_strlit("");
    }
    if merged.as_str().unicode_len() == 0 {
        (String::new(), String::new())
    } else {
        let (a, b, _div) = styles2_string(merged.as_str());
        (a, b)
    }
}

fn push_rect_title_open(out: &mut String, id: &str, n: &RectWithTitleText)
    ensures
        final(out)@ == old(out)@ + rect_title_open(id@, *n),
{
    out.append("<g class=\"node ");
    out.append(str_or(&n.css_classes, "undefined"));
    out.append("\" id=\"");
    out.append(id);
    out.append("-");
    let nid = xml_escape(str_or(&n.dom_id, n.id.as_str()));
    out.append(nid.as_str());
    out.append("\" data-look=\"classic\" transform=\"translate(");
    out.append(n.x.as_str());
    out.append(", ");
    out.append(n.y.as_str());
    out.append(")\">");
    assert(out@ =~= old(out)@ + rect_title_open(id@, *n));
}

fn push_rect_title_frame(out: &mut String, n: &RectWithTitleText, shape_style: &str)
    requires
        shape_style@ == rect_title_shape_style(*n),
    ensures
        final(out)@ == old(out)@ + rect_title_frame(*n),
{
    out.append("<g><rect class=\"outer title-state\" style=\"");
    out.append(shape_style);
    out.append("\" x=\"");
    out.append(n.rect_x.as_str());
    out.append("\" y=\"");
    out.append(n.rect_y.as_str());
    out.append("\" width=\"");
    out.append(n.rect_width.as_str());
    out.append("\" height=\"");
    out.append(n.rect_height.as_str());
    out.append("\"></rect><line class=\"divider\" x1=\"");
    out.append(n.rect_x.as_str());
    out.append("\" x2=\"");
    out.append(n.divider_x2.as_str());
    out.append("\" y1=\"");
    out.append(n.divider_y.as_str());
    out.append("\" y2=\"");
    out.append(n.divider_y.as_str());
    out.append("\"></line></g>");
    assert(out@ =~= old(out)@ + rect_title_frame(*n));
}

fn push_rect_title_label(out: &mut String, n: &RectWithTitleText, label_style: &str)
    requires
        label_style@ == rect_title_label_style(*n),
    ensures
        final(out)@ == old(out)@ + rect_title_label(*n),
{
    let desc = match &n.description {
        Some(lines) => join_lines(lines),
        None => String::new(),
    };
    proof {
        reveal_strlit("");
    }
    assert(desc@ == rect_title_desc(*n));
    out.append("<g class=\"label\" style=\"");
    out.append(label_style);
    out.append("\" transform=\"translate(");
    out.append(n.label_x.as_str());
    out.append(", ");
    out.append(n.label_y.as_str());
    out.append(")\">");
    push_label_box(
        out,
        n.title_width.as_str(),
        n.line_height.as_str(),
        n.title_x.as_str(),
        "0",
        str_or(&n.label, ""),
    );
    push_label_box(
        out,
        n.desc_width.as_str(),
        n.line_height.as_str(),
        n.desc_x.as_str(),
        n.desc_y.as_str(),
        desc.as_str(),
    );
    out.append("</g>");
    assert(out@ =~= old(out)@ + rect_title_label(*n));
}

/// The SVG group of a state drawn as a titled rectangle: the outer rectangle
/// with the shape part of the state's merged style, a divider under the
/// title, and a label group with the label part of the style holding the
/// escaped title and the escaped description (its lines joined with
/// `<br/>`). The group's classes are `node` and the state's classes
/// (`undefined` when it has none).
pub fn emit_rect_with_title(id: &str, n: &RectWithTitleText, _theme: &ThemeVariables) -> (r: Option<String>)
    ensures
        r matches Some(s) && s@ == rect_with_title_svg(id@, *n),
{
    let (shape_style, label_style) = rect_title_styles(n);
    let mut out = String::new();
    push_rect_title_open(&mut out, id, n);
    push_rect_title_frame(&mut out, n, shape_style.as_str());
    push_rect_title_label(&mut out, n, label_style.as_str());
    out.append("</g>");
    assert(out@ =~= rect_with_title_svg(id@, *n));
    Some(out)
}

} // verus!
