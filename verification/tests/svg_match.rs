use vison::shell::base64_encode;
use vison::svg_match::{base64_decode, match_inner, num_token_len};

const ABS_TOL: f64 = 1.0e-6;
const REL_TOL: f64 = 1.0e-9;

fn numbers_close(a: f64, b: f64) -> bool {
    if a.is_nan() || b.is_nan() {
        return false;
    }
    if a == b {
        return true;
    }
    let diff = (a - b).abs();
    let scale = a.abs().max(b.abs());
    diff <= ABS_TOL || diff <= REL_TOL * scale
}

fn parse(t: &[u8]) -> f64 {
    std::str::from_utf8(t).unwrap_or("").parse().unwrap_or(f64::NAN)
}

/// The tolerant comparison: the structural walk of the library, then each
/// numeric token pair compared as floats.
fn svg_match_tolerant(got: &str, expected: &str) -> bool {
    match match_inner(got.as_bytes(), expected.as_bytes()) {
        Some(pairs) => pairs.iter().all(|(g, e)| numbers_close(parse(g), parse(e))),
        None => false,
    }
}

fn encode_b64(input: &[u8]) -> String {
    const CHARS: &[u8; 64] = b"ABCDEFGHIJKLMNOPQRSTUVWXYZabcdefghijklmnopqrstuvwxyz0123456789+/";
    let mut out = String::new();
    let mut i = 0;
    while i + 3 <= input.len() {
        let n = ((input[i] as u32) << 16) | ((input[i + 1] as u32) << 8) | (input[i + 2] as u32);
        out.push(CHARS[((n >> 18) & 0x3f) as usize] as char);
        out.push(CHARS[((n >> 12) & 0x3f) as usize] as char);
        out.push(CHARS[((n >> 6) & 0x3f) as usize] as char);
        out.push(CHARS[(n & 0x3f) as usize] as char);
        i += 3;
    }
    let rem = input.len() - i;
    if rem == 1 {
        let n = (input[i] as u32) << 16;
        out.push(CHARS[((n >> 18) & 0x3f) as usize] as char);
        out.push(CHARS[((n >> 12) & 0x3f) as usize] as char);
        out.push('=');
        out.push('=');
    } else if rem == 2 {
        let n = ((input[i] as u32) << 16) | ((input[i + 1] as u32) << 8);
        out.push(CHARS[((n >> 18) & 0x3f) as usize] as char);
        out.push(CHARS[((n >> 12) & 0x3f) as usize] as char);
        out.push(CHARS[((n >> 6) & 0x3f) as usize] as char);
        out.push('=');
    }
    out
}

#[test]
fn equal_strings_match() {
    assert!(svg_match_tolerant("<g x=\"1.5\"/>", "<g x=\"1.5\"/>"));
}

#[test]
fn one_ulp_drift_matches() {
    let a = "<g x=\"220.85800183423316\"/>";
    let b = "<g x=\"220.85800183423318\"/>";
    assert!(svg_match_tolerant(a, b));
}

#[test]
fn meaningful_drift_fails() {
    assert!(!svg_match_tolerant("<g x=\"100.0\"/>", "<g x=\"100.5\"/>"));
}

#[test]
fn negative_numbers_match() {
    assert!(svg_match_tolerant("viewBox=\"-50 -10 950 455\"", "viewBox=\"-50 -10 950 455\""));
}

#[test]
fn dash_in_class_not_treated_as_number() {
    assert!(!svg_match_tolerant("class=\"actor-1\"", "class=\"actor-2\""));
}

#[test]
fn scientific_notation_matches() {
    assert!(svg_match_tolerant("opacity=\"1e-3\"", "opacity=\"0.001\""));
}

#[test]
fn data_points_base64_drift_matches() {
    let json_a = r#"[{"x":220.85800183423316,"y":29.7226562}]"#;
    let json_b = r#"[{"x":220.85800183423318,"y":29.7226562}]"#;
    let b64_a = encode_b64(json_a.as_bytes());
    let b64_b = encode_b64(json_b.as_bytes());
    let svg_a = format!("<path data-points=\"{}\" data-look=\"x\"/>", b64_a);
    let svg_b = format!("<path data-points=\"{}\" data-look=\"x\"/>", b64_b);
    assert!(svg_match_tolerant(&svg_a, &svg_b));
}

#[test]
fn structural_differ_fails() {
    assert!(!svg_match_tolerant("<g></g>", "<rect/>"));
}

// ---- further cases ----

#[test]
fn numeric_pairs_are_returned_in_order() {
    let pairs = match_inner(b"x=\"1\" y=\"-2.5e3\"", b"x=\"1.0\" y=\"-2500\"").unwrap();
    assert_eq!(pairs.len(), 2);
    assert_eq!(pairs[0], (b"1".to_vec(), b"1.0".to_vec()));
    assert_eq!(pairs[1], (b"-2.5e3".to_vec(), b"-2500".to_vec()));
}

#[test]
fn length_mismatch_fails() {
    assert!(match_inner(b"<g>", b"<g>x").is_none());
    assert!(match_inner(b"", b"").unwrap().is_empty());
}

#[test]
fn unclosed_payload_fails_even_against_itself() {
    let s = b"<path data-points=\"abc";
    assert!(match_inner(s, s).is_none());
}

#[test]
fn undecodable_payloads_compare_raw() {
    assert!(match_inner(b"data-points=\"a!\"", b"data-points=\"a!\"").is_some());
    assert!(match_inner(b"data-points=\"a!\"", b"data-points=\"b!\"").is_none());
}

#[test]
fn match_is_symmetric_on_examples() {
    let a: &[u8] = b"<g x=\"1\" class=\"a-1\"/>";
    let b: &[u8] = b"<g x=\"2\" class=\"a-1\"/>";
    let ab = match_inner(a, b).unwrap();
    let ba = match_inner(b, a).unwrap();
    assert_eq!(ab.len(), ba.len());
    for (p, q) in ab.iter().zip(ba.iter()) {
        assert_eq!((&p.0, &p.1), (&q.1, &q.0));
    }
}

#[test]
fn num_token_len_cases() {
    assert_eq!(num_token_len(b"12.5e-3x", 0), 7);
    assert_eq!(num_token_len(b"-.5", 0), 3);
    assert_eq!(num_token_len(b"a-1", 1), 0);
    assert_eq!(num_token_len(b"_-1", 1), 0);
    assert_eq!(num_token_len(b" -1", 1), 2);
    assert_eq!(num_token_len(b"1e", 0), 1);
    assert_eq!(num_token_len(b"1e+", 0), 1);
    assert_eq!(num_token_len(b".", 0), 0);
    assert_eq!(num_token_len(b"-", 0), 0);
    assert_eq!(num_token_len(b"1.", 0), 2);
    assert_eq!(num_token_len(b"abc", 5), 0);
}

#[test]
fn base64_decode_cases() {
    assert_eq!(base64_decode(b"aGVsbG8="), Some(b"hello".to_vec()));
    assert_eq!(base64_decode(b"aGVs bA=="), Some(b"hell".to_vec()));
    assert_eq!(base64_decode(b"aGVsbG8"), None);
    assert_eq!(base64_decode(b"aGV*"), None);
    assert_eq!(base64_decode(b""), Some(Vec::new()));
}

#[test]
fn base64_roundtrip_examples() {
    for d in [&b""[..], b"a", b"ab", b"abc", b"\x00\xff\x10\x80"] {
        let e = base64_encode(d);
        assert_eq!(base64_decode(e.as_bytes()), Some(d.to_vec()));
    }
}
