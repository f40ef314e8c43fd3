//! The description of a record and the extraction of its field list.

use vstd::prelude::*;

verus! {

/// One named, typed field of a record. Both parts are kept as source text.
#[derive(Debug, Clone, PartialEq, Eq)]
pub struct Field {
    pub name: String,
    pub ty: String,
}

/// What a [`Field`] is to a contract: its name and its type, as characters.
pub struct FieldView {
    pub name: Seq<char>,
    pub ty: Seq<char>,
}

impl View for Field {
    type V = FieldView;

    open spec fn view(&self) -> FieldView {
        FieldView { name: self.name@, ty: self.ty@ }
    }
}

/// The views of a list of fields, in the same order.
pub open spec fn field_views(fields: Seq<Field>) -> Seq<FieldView> {
    Seq::new(fields.len(), |i: int| fields[i]@)
}

/// The structural kind of a user-defined nominal type.
#[derive(Debug, Clone, PartialEq, Eq)]
pub enum Shape {
    /// A record whose fields are named, in declaration order.
    Named(Vec<Field>),
    /// A record whose fields are positional.
    Positional,
    /// A record without a field list.
    Unit,
    /// A type with alternatives.
    Enum,
    /// A type whose fields share one storage.
    Union,
}

/// What a [`Shape`] is to a contract.
pub enum ShapeView {
    Named(Seq<FieldView>),
    Positional,
    Unit,
    Enum,
    Union,
}

impl View for Shape {
    type V = ShapeView;

    open spec fn view(&self) -> ShapeView {
        match self {
            Shape::Named(fields) => ShapeView::Named(field_views(fields@)),
            Shape::Positional => ShapeView::Positional,
            Shape::Unit => ShapeView::Unit,
            Shape::Enum => ShapeView::Enum,
            Shape::Union => ShapeView::Union,
        }
    }
}

/// The input of the generator: a type's name and its shape.
#[derive(Debug, Clone, PartialEq, Eq)]
pub struct RecordDescription {
    pub name: String,
    pub shape: Shape,
}

/// What a [`RecordDescription`] is to a contract.
pub struct RecordDescriptionView {
    pub name: Seq<char>,
    pub shape: ShapeView,
}

impl View for RecordDescription {
    type V = RecordDescriptionView;

    open spec fn view(&self) -> RecordDescriptionView {
        RecordDescriptionView { name: self.name@, shape: self.shape@ }
    }
}

/// Why a description cannot be given a builder.
#[derive(Debug, Clone, Copy, PartialEq, Eq, Structural)]
pub enum ShapeError {
    /// The type is not a record at all.
    ExpectedRecord,
    /// The type is a record, but its fields carry no names.
    ExpectedNamedFields,
}

/// The field list of a shape, or the reason why it has none that a builder
/// could be generated for.
pub open spec fn extracted(shape: ShapeView) -> Result<Seq<FieldView>, ShapeError> {
    match shape {
        ShapeView::Named(fields) => Ok(fields),
        ShapeView::Positional => Err(ShapeError::ExpectedNamedFields),
        ShapeView::Unit => Err(ShapeError::ExpectedNamedFields),
        ShapeView::Enum => Err(ShapeError::ExpectedRecord),
        ShapeView::Union => Err(ShapeError::ExpectedRecord),
    }
}

impl Field {
    /// A field with the given name and type.
    pub fn new(name: &str, ty: &str) -> (field: Field)
        ensures
            field@.name == name@,
            field@.ty == ty@,
    {
        Field { name: name.to_owned(), ty: ty.to_owned() }
    }
}

impl ShapeError {
    /// The diagnostic that halts generation.
    pub fn message(&self) -> (text: &'static str)
        ensures
            text@ == (match *self {
                ShapeError::ExpectedRecord => "Expected a struct!"@,
                ShapeError::ExpectedNamedFields => "Expected named fields"@,
            }),
    {
        match self {
            ShapeError::ExpectedRecord => "Expected a struct!",
            ShapeError::ExpectedNamedFields => "Expected named fields",
        }
    }
}

impl RecordDescription {
    /// A description of a record with the given named fields.
    pub fn record(name: &str, fields: Vec<Field>) -> (desc: RecordDescription)
        ensures
            desc@.name == name@,
            desc@.shape == ShapeView::Named(field_views(fields@)),
    {
        RecordDescription { name: name.to_owned(), shape: Shape::Named(fields) }
    }

    /// The ordered field list of this description.
    ///
    /// Succeeds exactly on records with named fields, and then hands out the
    /// fields in declaration order. Every other shape is rejected: a record
    /// without named fields with [`ShapeError::ExpectedNamedFields`], anything
    /// that is not a record with [`ShapeError::ExpectedRecord`].
    pub fn fields(&self) -> (r: Result<&Vec<Field>, ShapeError>)
        ensures
            match r {
                Ok(fields) => extracted(self@.shape) == Ok::<Seq<FieldView>, ShapeError>(
                    field_views(fields@),
                ),
                Err(e) => extracted(self@.shape) == Err::<Seq<FieldView>, ShapeError>(e),
            },
    {
        match &self.shape {
            Shape::Named(fields) => Ok(fields),
            Shape::Positional => Err(ShapeError::ExpectedNamedFields),
            Shape::Unit => Err(ShapeError::ExpectedNamedFields),
            Shape::Enum => Err(ShapeError::ExpectedRecord),
            Shape::Union => Err(ShapeError::ExpectedRecord),
        }
    }
}

} // verus!
