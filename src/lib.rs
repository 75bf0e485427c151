//! A rendering service for vector-graphics markup with a flat, byte-oriented
//! boundary: a font registry, a two-step render pipeline and the result and
//! error channels, all held by one explicit [`context::Context`].

pub mod context;
pub mod laws;
pub mod message;
pub mod outside;
