//! Terminal session rendering and input protocol engine for a falling-block
//! game served over a raw byte stream.
//!
//! The crate maps abstract game events to minimal ANSI terminal updates
//! (diff rendering), parses a small escape-sequence command alphabet, and
//! keeps the per-session state needed to compute incremental redraws.
//! All rendering is expressed as sequences of terminal operations
//! ([`term::TermOp`]) with a verified byte encoder; the surrounding I/O
//! (sockets, the game engine) lives outside this crate and exchanges plain
//! values with it.

pub mod board;
pub mod glyph;
pub mod input;
pub mod panel;
pub mod render;
pub mod session;
pub mod shape;
pub mod term;
