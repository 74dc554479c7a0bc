//! Helpers of the Venn renderer: font-family minification, text escaping,
//! and the conversion of hex colours to the `rgb()` / `rgba()` form a style
//! serialiser gives back.
use vstd::prelude::*;
use vstd::utf8::encode_utf8;
use crate::chars::{
    append_decimal, chars_of, decimal, push_char, string_from_chars, trim, trim_chars,
    trim_end_char,
};

verus! {

// ---------------------------------------------------------------------------
// Font family and text
// ---------------------------------------------------------------------------

/// `s[i..]` minified: the one space right after a comma outside double
/// quotes is dropped; quotes toggle the quoted state.
pub open spec fn minify_from(s: Seq<char>, i: int, in_quote: bool, prev_comma: bool) -> Seq<char>
    decreases s.len() - i,
{
    if i < 0 || i >= s.len() {
        Seq::empty()
    } else {
        let c = s[i];
        if c == '"' {
            seq![c] + minify_from(s, i + 1, !in_quote, false)
        } else if !in_quote && c == ',' {
            seq![c] + minify_from(s, i + 1, in_quote, true)
        } else if !in_quote && prev_comma && c == ' ' {
            minify_from(s, i + 1, in_quote, false)
        } else {
            seq![c] + minify_from(s, i + 1, in_quote, false)
        }
    }
}

/// A minified font-family list.
pub open spec fn minify_font(s: Seq<char>) -> Seq<char> {
    minify_from(s, 0, false, false)
}

/// Drop the single space after each comma that is not inside double
/// quotes.
pub fn minify_font_family(s: &str) -> (r: String)
    ensures
        r@ == minify_font(s@),
{
    let v = chars_of(s);
    let mut out = String::new();
    let mut in_quote = false;
    let mut prev_comma = false;
    let mut i: usize = 0;
    while i < v.len()
        invariant
            i <= v.len(),
            v@ == s@,
            minify_font(v@) == out@ + minify_from(v@, i as int, in_quote, prev_comma),
        decreases v.len() - i,
    {
        let c = v[i];
        let ghost before = out@;
        let ghost q0 = in_quote;
        let ghost p0 = prev_comma;
        if c == '"' {
            in_quote = !in_quote;
            push_char(&mut out, c);
            prev_comma = false;
        } else if !in_quote && c == ',' {
            push_char(&mut out, c);
            prev_comma = true;
        } else if !in_quote && prev_comma && c == ' ' {
            prev_comma = false;
        } else {
            push_char(&mut out, c);
            prev_comma = false;
        }
        assert(before + minify_from(v@, i as int, q0, p0) =~= out@ + minify_from(
            v@,
            i + 1,
            in_quote,
            prev_comma,
        ));
        i = i + 1;
    }
    out
}

/// Escape `&`, `<` and `>` in text.
pub fn escape_text(s: &str) -> (r: String)
    ensures
        r@ == crate::state::escape_text(s@),
{
    crate::state::xml_escape(s)
}

// ---------------------------------------------------------------------------
// Hex colours
// ---------------------------------------------------------------------------

/// The value of a hex digit byte.
pub open spec fn hex_digit(b: u8) -> Option<nat> {
    if 48 <= b && b <= 57 {
        Some((b - 48) as nat)
    } else if 97 <= b && b <= 102 {
        Some((b - 87) as nat)
    } else if 65 <= b && b <= 70 {
        Some((b - 55) as nat)
    } else {
        None
    }
}

/// The value of a string of hex digit bytes, if they all are.
pub open spec fn hex_value(h: Seq<u8>) -> Option<nat>
    decreases h.len(),
{
    if h.len() == 0 {
        Some(0)
    } else {
        match (hex_value(h.drop_last()), hex_digit(h.last())) {
            (Some(v), Some(d)) => Some(v * 16 + d),
            _ => None,
        }
    }
}

/// What `u8::from_str_radix(h, 16)` gives: an optional `+` (not alone),
/// then one or more hex digits whose value fits in a byte.
pub open spec fn parse_hex_u8(h: Seq<u8>) -> Option<nat> {
    if h.len() == 0 || (h.len() == 1 && (h[0] == 43 || h[0] == 45)) {
        None
    } else {
        let digits = if h[0] == 43 {
            h.skip(1)
        } else {
            h
        };
        match hex_value(digits) {
            Some(v) => if v <= 255 {
                Some(v)
            } else {
                None
            },
            None => None,
        }
    }
}

fn hex_digit_exec(b: u8) -> (r: Option<u8>)
    ensures
        r matches Some(d) ==> hex_digit(b) == Some(d as nat),
        r is None ==> hex_digit(b) is None,
{
    if 48 <= b && b <= 57 {
        Some(b - 48)
    } else if 97 <= b && b <= 102 {
        Some(b - 87)
    } else if 65 <= b && b <= 70 {
        Some(b - 55)
    } else {
        None
    }
}

/// Parse the one or two bytes `b[lo..hi]` as `u8::from_str_radix(_, 16)`.
fn parse_hex(b: &[u8], lo: usize, hi: usize) -> (r: Option<u8>)
    requires
        lo < hi <= b@.len(),
        hi - lo <= 2,
    ensures
        r matches Some(v) ==> parse_hex_u8(b@.subrange(lo as int, hi as int)) == Some(v as nat),
        r is None ==> parse_hex_u8(b@.subrange(lo as int, hi as int)) is None,
        hi - lo == 1 ==> (r matches Some(v) ==> v < 16),
{
    let ghost h = b@.subrange(lo as int, hi as int);
    if hi - lo == 1 {
        let x = b[lo];
        assert(h =~= seq![x]);
        assert(seq![x].drop_last() =~= Seq::<u8>::empty());
        assert(hex_value(seq![x]) == match hex_digit(x) {
            Some(d) => Some(d),
            None => None::<nat>,
        }) by {
            reveal_with_fuel(hex_value, 2);
            assert(seq![x].drop_last() =~= Seq::<u8>::empty());
        }
        if x == 43 || x == 45 {
            return None;
        }
        match hex_digit_exec(x) {
            Some(d) => Some(d),
            None => None,
        }
    } else {
        let first = b[lo];
        let second = b[lo + 1];
        assert(h =~= seq![first, second]);
        assert(seq![first, second].drop_last() =~= seq![first]);
        assert(seq![first].drop_last() =~= Seq::<u8>::empty());
        assert(seq![second].drop_last() =~= Seq::<u8>::empty());
        assert(hex_value(seq![first]) == match hex_digit(first) {
            Some(d) => Some(d),
            None => None::<nat>,
        }) by {
            reveal_with_fuel(hex_value, 2);
            assert(seq![first].drop_last() =~= Seq::<u8>::empty());
        }
        assert(hex_value(seq![second]) == match hex_digit(second) {
            Some(d) => Some(d),
            None => None::<nat>,
        }) by {
            reveal_with_fuel(hex_value, 2);
            assert(seq![second].drop_last() =~= Seq::<u8>::empty());
        }
        if first == 43 {
            assert(h.skip(1) =~= seq![second]);
            match hex_digit_exec(second) {
                Some(d) => Some(d),
                None => None,
            }
        } else {
            match (hex_digit_exec(first), hex_digit_exec(second)) {
                (Some(x), Some(y)) => {
                    assert(hex_value(h) == Some((x * 16 + y) as nat));
                    Some(x * 16 + y)
                },
                _ => None,
            }
        }
    }
}

/// Whether byte position `k` of a UTF-8 text starts a character (or is its
/// end): the byte there is no continuation byte.
pub open spec fn is_boundary(b: Seq<u8>, k: int) -> bool {
    k == b.len() || (0 <= k < b.len() && !(0x80 <= b[k] && b[k] < 0xC0))
}

/// The UTF-8 bytes after the `#` of a trimmed colour.
pub open spec fn hex_body(c: Seq<char>) -> Seq<u8> {
    encode_utf8(trim(c)).skip(1)
}

/// A trimmed colour starting with `#`.
pub open spec fn is_hash_color(c: Seq<char>) -> bool {
    trim(c).len() > 0 && trim(c)[0] == '#'
}

/// The hex colours whose digit groups cannot be cut out of the text
/// because a cut would fall inside a multi-byte character.
pub open spec fn hex_cut_fails(c: Seq<char>) -> bool {
    let b = hex_body(c);
    is_hash_color(c) && ((b.len() == 3 && !(is_boundary(b, 1) && is_boundary(b, 2))) || (b.len()
        == 6 && !(is_boundary(b, 2) && is_boundary(b, 4))) || (b.len() == 8 && !(is_boundary(b, 2)
        && is_boundary(b, 4) && is_boundary(b, 6))))
}

/// The alpha `a / 255` rounded to three decimals with trailing zeros
/// dropped; `1` and `0` for the extremes. `k` is the nearest integer to
/// `1000 * a / 255` (never halfway between two).
pub open spec fn alpha_text(a: nat) -> Seq<char> {
    if a == 255 {
        "1"@
    } else if a == 0 {
        "0"@
    } else {
        let k = (2000 * a + 255) / 510;
        trim_end_char(
            trim_end_char(
                "0."@ + seq![
                    (48 + k / 100) as char,
                    (48 + (k / 10) % 10) as char,
                    (48 + k % 10) as char,
                ],
                '0',
            ),
            '.',
        )
    }
}

/// Print the alpha of a colour whose alpha byte is `a` (see [`alpha_text`]).
pub fn format_alpha(a: u8) -> (r: String)
    ensures
        r@ == alpha_text(a as nat),
{
    let mut out = String::new();
    if a == 255 {
        out.append("1");
        return out;
    }
    if a == 0 {
        out.append("0");
        return out;
    }
    let k: u32 = (2000 * (a as u32) + 255) / 510;
    assert(k < 1000) by (nonlinear_arith)
        requires
            a <= 254,
            k == (2000 * (a as u32) + 255) / 510,
    ;
    let mut v: Vec<char> = Vec::new();
    v.push('0');
    v.push('.');
    v.push(((48 + k / 100) as u8) as char);
    v.push(((48 + (k / 10) % 10) as u8) as char);
    v.push(((48 + k % 10) as u8) as char);
    proof {
        reveal_strlit("0.");
    }
    assert(v@ =~= "0."@ + seq![
        (48 + k / 100) as char,
        (48 + (k / 10) % 10) as char,
        (48 + k % 10) as char,
    ]);
    let t1 = crate::chars::trim_end_char_exec(&v, '0');
    let t2 = crate::chars::trim_end_char_exec(&t1, '.');
    string_from_chars(&t2)
}

/// `rgb(r, g, b)`.
pub open spec fn rgb_text(r: nat, g: nat, b: nat) -> Seq<char> {
    "rgb("@ + decimal(r) + ", "@ + decimal(g) + ", "@ + decimal(b) + ")"@
}

/// The colour as a style serialiser gives it back: a `#rgb`, `#rrggbb` or
/// `#rrggbbaa` colour (after trimming) becomes `rgb(r, g, b)` or
/// `rgba(r, g, b, alpha)`; anything else, and a hex colour whose digits do
/// not parse, is returned as it was given.
pub open spec fn span_color(c: Seq<char>) -> Seq<char> {
    let b = hex_body(c);
    if !is_hash_color(c) {
        c
    } else if b.len() == 3 {
        match (
            parse_hex_u8(b.subrange(0, 1)),
            parse_hex_u8(b.subrange(1, 2)),
            parse_hex_u8(b.subrange(2, 3)),
        ) {
            (Some(r), Some(g), Some(bl)) => rgb_text(r * 17, g * 17, bl * 17),
            _ => c,
        }
    } else if b.len() == 6 {
        match (
            parse_hex_u8(b.subrange(0, 2)),
            parse_hex_u8(b.subrange(2, 4)),
            parse_hex_u8(b.subrange(4, 6)),
        ) {
            (Some(r), Some(g), Some(bl)) => rgb_text(r, g, bl),
            _ => c,
        }
    } else if b.len() == 8 {
        match (
            parse_hex_u8(b.subrange(0, 2)),
            parse_hex_u8(b.subrange(2, 4)),
            parse_hex_u8(b.subrange(4, 6)),
            parse_hex_u8(b.subrange(6, 8)),
        ) {
            (Some(r), Some(g), Some(bl), Some(a)) => "rgba("@ + decimal(r) + ", "@ + decimal(g)
                + ", "@ + decimal(bl) + ", "@ + alpha_text(a) + ")"@,
            _ => c,
        }
    } else {
        c
    }
}

fn append_rgb(out: &mut String, r: u8, g: u8, b: u8)
    ensures
        final(out)@ == old(out)@ + "rgb("@ + decimal(r as nat) + ", "@ + decimal(g as nat) + ", "@
            + decimal(b as nat) + ")"@,
{
    out.append("rgb(");
    append_decimal(out, r as u64);
    out.append(", ");
    append_decimal(out, g as u64);
    out.append(", ");
    append_decimal(out, b as u64);
    out.append(")");
}

fn copy_str(c: &str) -> (r: String)
    ensures
        r@ == c@,
{
    let mut r = String::new();
    r.append(c);
    r
}

/// Convert a hex colour literal into the `rgb(…)` / `rgba(…)` form (see
/// [`span_color`]).
pub fn normalize_color_for_span(c: &str) -> (r: String)
    requires
        !hex_cut_fails(c@),
    ensures
        r@ == span_color(c@),
{
    let t = string_from_chars(&trim_chars(&chars_of(c)));
    if t.as_str().len() == 0 {
        return copy_str(c);
    }
    let tv = chars_of(t.as_str());
    if tv[0] != '#' {
        return copy_str(c);
    }
    let bytes = t.as_str().as_bytes();
    proof {
        vstd::utf8::encode_utf8_first_scalar(t@);
        assert(encode_utf8(t@).len() >= 1) by {
            reveal_with_fuel(encode_utf8, 2);
        }
    }
    let n = bytes.len();
    let ghost body = bytes@.skip(1);
    assert(body == hex_body(c@));
    if n == 4 {
        assert(body.subrange(0, 1) =~= bytes@.subrange(1, 2));
        assert(body.subrange(1, 2) =~= bytes@.subrange(2, 3));
        assert(body.subrange(2, 3) =~= bytes@.subrange(3, 4));
        match (parse_hex(bytes, 1, 2), parse_hex(bytes, 2, 3), parse_hex(bytes, 3, 4)) {
            (Some(r), Some(g), Some(b)) => {
                let mut out = String::new();
                append_rgb(&mut out, r * 17, g * 17, b * 17);
                return out;
            },
            _ => {
                return copy_str(c);
            },
        }
    } else if n == 7 {
        assert(body.subrange(0, 2) =~= bytes@.subrange(1, 3));
        assert(body.subrange(2, 4) =~= bytes@.subrange(3, 5));
        assert(body.subrange(4, 6) =~= bytes@.subrange(5, 7));
        match (parse_hex(bytes, 1, 3), parse_hex(bytes, 3, 5), parse_hex(bytes, 5, 7)) {
            (Some(r), Some(g), Some(b)) => {
                let mut out = String::new();
                append_rgb(&mut out, r, g, b);
                return out;
            },
            _ => {
                return copy_str(c);
            },
        }
    } else if n == 9 {
        assert(body.subrange(0, 2) =~= bytes@.subrange(1, 3));
        assert(body.subrange(2, 4) =~= bytes@.subrange(3, 5));
        assert(body.subrange(4, 6) =~= bytes@.subrange(5, 7));
        assert(body.subrange(6, 8) =~= bytes@.subrange(7, 9));
        match (
            parse_hex(bytes, 1, 3),
            parse_hex(bytes, 3, 5),
            parse_hex(bytes, 5, 7),
            parse_hex(bytes, 7, 9),
        ) {
            (Some(r), Some(g), Some(b), Some(a)) => {
                let mut out = String::new();
                out.append("rgba(");
                append_decimal(&mut out, r as u64);
                out.append(", ");
                append_decimal(&mut out, g as u64);
                out.append(", ");
                append_decimal(&mut out, b as u64);
                out.append(", ");
                let al = format_alpha(a);
                out.append(al.as_str());
                out.append(")");
                return out;
            },
            _ => {
                return copy_str(c);
            },
        }
    }
    copy_str(c)
}

} // verus!
