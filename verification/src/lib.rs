//! The decision procedure behind a derive of `Debug` for types whose members
//! do not or cannot all implement `Debug` themselves.
//!
//! A field is annotated with what to show in its place: a fixed text
//! (`#[debug_stub = "TEXT"]`), a text for the value inside an `Option`
//! (`#[debug_stub(some = "TEXT")]`) or texts for the two sides of a `Result`
//! (`#[debug_stub(ok = "TEXT", err = "TEXT")]`, or one of them). A type is
//! annotated with `#[debug_stub(ignore_generics)]` where its parameters need
//! not be representable themselves.
//!
//! - [`annotation`] and [`shape`] describe a declaration as the generator
//!   consumes it.
//! - [`overrides`] reads the annotations, [`field`] turns one field into the
//!   statement that contributes it, and [`emit`] assembles the implementation
//!   for a whole type; [`error`] says what can be wrong with a declaration.
//! - [`plan`] is the generated implementation as data, and [`source`] writes
//!   it out as Rust source text.
//! - [`value`], [`builder`] and [`render`] say what the generated function
//!   writes for a value, compact or expanded.
//! - [`laws`] states and proves what holds of every generated implementation.
//!
//! Every function is verified against its contract with Verus.

pub mod annotation;
pub mod builder;
pub mod emit;
pub mod error;
pub mod field;
pub mod laws;
pub mod overrides;
pub mod plan;
pub mod render;
pub mod shape;
pub mod source;
pub mod text;
pub mod value;
