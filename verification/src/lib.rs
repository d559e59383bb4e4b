//! Syntax coloring: capture-name themes, highlight span algebra, ANSI/VT
//! terminal rendering, and the plain-value side of its C interfaces (the
//! theme/render interface and an editor bundle).
#![allow(unused_imports)]

pub mod text;
pub mod style;
pub mod style_map;
pub mod theme;
pub mod tokyonight;
pub mod catppuccin;
pub mod studio;
pub mod sgr;
pub mod grammar;
pub mod spans;
pub mod render;
pub mod cells;
pub mod patch;
pub mod renderers;
pub mod osc;
pub mod resolve;
pub mod highlighter;
pub mod pipeline;
pub mod c_api;
pub mod c_calls;
pub mod tsbundler;
pub mod recall;
pub mod bundle;
pub mod line_text;
pub mod laws;
