# vison

Text, markup and SVG-fragment building blocks of a diagram renderer, written
in Verus: every function in `src/` carries a contract over a mathematical
model of its input and output, and Verus proves it.

## Layout

- `src/chars.rs` — character-level helpers (conversions, trimming, search,
  splitting, joining, replacement, decimal printing) shared by every module.
- `src/text.rs` — display width of mixed CJK / Latin text and the small
  Markdown subset of labels (plain text and HTML forms).
- `src/shell.rs` — the SVG shell: `<svg>` opening tag, fixed group tags,
  drop-shadow and gradient definitions, accessibility elements, base64 and
  the `data-points` serialisation, per-colour edge markers.
- `src/svg_match.rs` — the structural part of the tolerant SVG comparison
  (numeric tokens, base64 payloads) and base64 decoding.
- `src/theme.rs` — theme variables and the overlay of an override on a
  baseline.
- `src/css.rs` — diagram kinds, the shared style-block preamble and the
  neo-look rules.
- `src/sequence.rs` — sequence diagrams: `<br>` splitting, entity
  placeholders, escaping, popup toggles, stick-figure ids.
- `src/message.rs` — one sequence-diagram message as SVG: label lines,
  arrow line or self-loop path, class, dashing and markers by arrow kind,
  central-connection circles, autonumber marker.
- `src/state.rs`, `src/state_css.rs` — state diagrams: escaping, entity
  decoding, style merging and splitting, `classDef` rules, edge paths,
  clusters, titled-rectangle states, edge-label bodies, the state CSS and
  style block.
- `src/treemap.rs`, `src/treemap_css.rs` — treemaps: style splitting,
  ordinal colour scales, label styles, value-format text, the style block.
- `src/venn.rs`, `src/venn_css.rs` — Venn diagrams: font-family
  minification, hex-colour conversion, the style block.
- `app/lib.rs` — the floating-point edges (number printing, numeric
  geometry of messages and titled states, tolerant number comparison, value
  formats, angle snapping), which call the library with text.

Laws that relate several calls are public proof functions named `law_*`.
