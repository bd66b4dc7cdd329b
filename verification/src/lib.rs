//! A small compiler for declarative error-type definitions.
//!
//! A definition is a stream of tokens that lists the variants of an error
//! type. The parser turns the stream into a list of variant descriptions,
//! and the generator derives from that list the shape of the type and the
//! tables that drive its textual renderings, its description, its cause and
//! its conversion constructors.
//!
//! - [`token`] and [`model`] hold the terminals of the grammar and the
//!   variants that a definition lists.
//! - [`machine`] states the grammar, [`parser`] reads a stream against it,
//!   and [`render`] writes a list of variants out again.
//! - [`arms`], [`artifacts`] and [`generate`] hold what is derived from the
//!   variants and what each derived piece gives for a value of the type;
//!   [`text`] fills format templates.
//! - [`validity`], [`roundtrip`] and [`laws`] prove what holds of every
//!   definition.

pub mod arms;
pub mod artifacts;
pub mod generate;
pub mod laws;
pub mod machine;
pub mod model;
pub mod parser;
pub mod render;
pub mod roundtrip;
pub mod text;
pub mod token;
pub mod validity;
