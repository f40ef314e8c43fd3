//! The four per-field templates. Each is a function of one field alone
//! (the assembly step also names the error it signals), and yields one
//! line of source without indentation or line end.

use vstd::prelude::*;
use crate::schema::Field;
use crate::schema::FieldView;

verus! {

/// The initial value of the field's slot: unset.
pub open spec fn spec_initializer(field: FieldView) -> Seq<char> {
    field.name + ": None,"@
}

/// The declaration of the field's slot, which holds a value of the field's
/// type or nothing.
pub open spec fn spec_slot(field: FieldView) -> Seq<char> {
    field.name + ": Option<"@ + field.ty + ">,"@
}

/// The field's setter: it stores its argument in the slot, over whatever
/// was there, and hands the builder back for the next call.
pub open spec fn spec_setter(field: FieldView) -> Seq<char> {
    "pub fn "@ + field.name + "(&mut self, "@ + field.name + ": "@ + field.ty
        + ") -> &mut Self { self."@ + field.name + " = Some("@ + field.name + "); self }"@
}

/// The field's assembly step: it empties the slot and yields what was in
/// it, or leaves the assembly at once with `error` where the slot was unset.
pub open spec fn spec_assembly_step(field: FieldView, error: Seq<char>) -> Seq<char> {
    field.name + ": self."@ + field.name + ".take().ok_or("@ + error + ")?,"@
}

/// Emits the initializer of `field`'s slot.
pub fn initializer(field: &Field) -> (text: String)
    ensures
        text@ == spec_initializer(field@),
{
    let mut text = field.name.clone();
    text.append(": None,");
    text
}

/// Emits the declaration of `field`'s slot.
pub fn slot(field: &Field) -> (text: String)
    ensures
        text@ == spec_slot(field@),
{
    let mut text = field.name.clone();
    text.append(": Option<");
    text.append(field.ty.as_str());
    text.append(">,");
    text
}

/// Emits the setter of `field`.
pub fn setter(field: &Field) -> (text: String)
    ensures
        text@ == spec_setter(field@),
{
    let name = field.name.as_str();
    let mut text = String::from_str("pub fn ");
    text.append(name);
    text.append("(&mut self, ");
    text.append(name);
    text.append(": ");
    text.append(field.ty.as_str());
    text.append(") -> &mut Self { self.");
    text.append(name);
    text.append(" = Some(");
    text.append(name);
    text.append("); self }");
    text
}

/// Emits the assembly step of `field`, which signals `error` where the
/// field was never set.
pub fn assembly_step(field: &Field, error: &str) -> (text: String)
    ensures
        text@ == spec_assembly_step(field@, error@),
{
    let name = field.name.as_str();
    let mut text = String::from_str(name);
    text.append(": self.");
    text.append(name);
    text.append(".take().ok_or(");
    text.append(error);
    text.append(")?,");
    text
}

} // verus!
