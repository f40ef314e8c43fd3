//! The front end: a record description read out of Rust source, and the
//! generator run on it.
//!
//! Parsing is `syn`'s work. What this module decides is what becomes of
//! each outcome of it.

use vstd::prelude::*;
use quote::ToTokens;
use crate::assemble::generate;
use crate::assemble::spec_generate;
use crate::schema::Field;
use crate::schema::RecordDescription;
use crate::schema::RecordDescriptionView;
use crate::schema::Shape;
use crate::schema::ShapeError;

verus! {

/// `syn::DeriveInput`, a parsed type definition. It is carried, never
/// looked into.
#[verifier::external_type_specification]
#[verifier::external_body]
pub struct ExDeriveInput(syn::DeriveInput);

/// `syn::Error`, the parser's refusal. It is carried, never looked into.
#[verifier::external_type_specification]
#[verifier::external_body]
pub struct ExSyntaxError(syn::Error);

/// Why no builder was generated from a source text.
#[derive(Debug, Clone, PartialEq, Eq)]
pub enum DeriveError {
    /// The text is not the definition of one nominal type. The payload is
    /// the parser's diagnostic.
    Syntax(String),
    /// The text defines a type that cannot be given a builder.
    Shape(ShapeError),
}

/// What a [`DeriveError`] is to a contract.
pub enum DeriveErrorView {
    Syntax(Seq<char>),
    Shape(ShapeError),
}

impl View for DeriveError {
    type V = DeriveErrorView;

    open spec fn view(&self) -> DeriveErrorView {
        match self {
            DeriveError::Syntax(diagnostic) => DeriveErrorView::Syntax(diagnostic@),
            DeriveError::Shape(e) => DeriveErrorView::Shape(*e),
        }
    }
}

/// What a reading of a source text came to: a description, or the parser's
/// diagnostic.
pub open spec fn reading_view(reading: Result<RecordDescription, String>) -> Result<
    RecordDescriptionView,
    Seq<char>,
> {
    match reading {
        Ok(desc) => Ok(desc@),
        Err(diagnostic) => Err(diagnostic@),
    }
}

/// The view of what [`derive`] and [`derive_reading`] return.
pub open spec fn outcome_view(r: Result<String, DeriveError>) -> Result<Seq<char>, DeriveErrorView> {
    match r {
        Ok(text) => Ok(text@),
        Err(e) => Err(e@),
    }
}

/// What is generated from a reading: the unit of the description that was
/// read, the description's own refusal, or the parser's diagnostic.
pub open spec fn spec_derive_reading(reading: Result<RecordDescriptionView, Seq<char>>) -> Result<
    Seq<char>,
    DeriveErrorView,
> {
    match reading {
        Ok(desc) => match spec_generate(desc) {
            Ok(text) => Ok(text),
            Err(e) => Err(DeriveErrorView::Shape(e)),
        },
        Err(diagnostic) => Err(DeriveErrorView::Syntax(diagnostic)),
    }
}

/// Calls `syn::parse_str` for a `syn::DeriveInput`: the text is parsed as
/// the definition of one struct, enum or union, and must be used up by it.
/// Nothing is claimed of which texts parse.
#[verifier::external_body]
fn parse_input(src: &str) -> (r: Result<syn::DeriveInput, syn::Error>) {
    syn::parse_str::<syn::DeriveInput>(src)
}

/// Calls `to_string` on a `syn::Error`, which renders the message of the
/// first error that the parser recorded.
#[verifier::external_body]
fn diagnostic_of(e: &syn::Error) -> (text: String) {
    e.to_string()
}

/// Reads a `syn::DeriveInput` out into a description: the type's name, the
/// kind of its `data`, and for named fields each field's name and the
/// tokens of its type as `quote::ToTokens::to_token_stream` prints them.
/// Nothing is claimed of the description; its caller holds for every one.
#[verifier::external_body]
fn describe_input(input: &syn::DeriveInput) -> (desc: RecordDescription) {
    let shape = match &input.data {
        syn::Data::Struct(data) => match &data.fields {
            syn::Fields::Named(fields) => Shape::Named(fields.named.iter().map(|f| Field {
                name: f.ident.to_token_stream().to_string(),
                ty: f.ty.to_token_stream().to_string(),
            }).collect()),
            syn::Fields::Unnamed(_) => Shape::Positional,
            syn::Fields::Unit => Shape::Unit,
        },
        syn::Data::Enum(_) => Shape::Enum,
        syn::Data::Union(_) => Shape::Union,
    };
    RecordDescription { name: input.ident.to_string(), shape }
}

/// Generates from a reading of a source text.
///
/// A description is handed to [`generate`], whose refusal comes back as
/// [`DeriveError::Shape`]; a diagnostic comes back unchanged as
/// [`DeriveError::Syntax`].
pub fn derive_reading(reading: Result<RecordDescription, String>) -> (r: Result<
    String,
    DeriveError,
>)
    ensures
        outcome_view(r) == spec_derive_reading(reading_view(reading)),
{
    match reading {
        Ok(desc) => match generate(&desc) {
            Ok(text) => Ok(text),
            Err(e) => Err(DeriveError::Shape(e)),
        },
        Err(diagnostic) => Err(DeriveError::Syntax(diagnostic)),
    }
}

/// Generates the builder for the type that `src` defines.
///
/// The text is parsed and read out into a description; the result is what
/// [`derive_reading`] makes of that reading, whatever it was.
pub fn derive(src: &str) -> (r: Result<String, DeriveError>)
    ensures
        exists|reading: Result<RecordDescriptionView, Seq<char>>|
            outcome_view(r) == #[trigger] spec_derive_reading(reading),
{
    let reading = match parse_input(src) {
        Ok(input) => Ok(describe_input(&input)),
        Err(e) => Err(diagnostic_of(&e)),
    };
    derive_reading(reading)
}

} // verus!
