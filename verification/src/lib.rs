//! Generates, for a record with named fields, the source of a companion
//! builder: a staging type with one optional slot per field, a chainable
//! setter per field, and a fallible assembly that yields the record once
//! every field has been assigned.
//!
//! The crate is organised along the generator's pipeline:
//!
//! * [`schema`] describes a record and extracts its ordered field list;
//! * [`ident`] derives the names of the builder and of its error;
//! * [`fragment`] holds the four per-field templates;
//! * [`assemble`] stitches names and fragments into the emitted unit;
//! * [`syntax`] reads a record description out of Rust source text;
//! * [`staging`] is the behaviour of an emitted builder, as a value that
//!   can be run and reasoned about.

pub mod schema;
pub mod ident;
pub mod fragment;
pub mod assemble;
pub mod syntax;
pub mod staging;
