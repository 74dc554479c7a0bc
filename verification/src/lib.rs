//! Text, markup and SVG-fragment helpers for a diagram renderer, with
//! their behaviour stated as contracts and proved.

pub mod chars;
pub mod css;
pub mod message;
pub mod sequence;
pub mod shell;
pub mod state;
pub mod state_css;
pub mod svg_match;
pub mod text;
pub mod theme;
pub mod treemap;
pub mod treemap_css;
pub mod venn;
pub mod venn_css;
