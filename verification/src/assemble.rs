//! The assembler: names and per-field fragments stitched into the emitted
//! unit, and the unit laid out as source text.

use vstd::prelude::*;
use crate::fragment::assembly_step;
use crate::fragment::initializer;
use crate::fragment::setter;
use crate::fragment::slot;
use crate::fragment::spec_assembly_step;
use crate::fragment::spec_initializer;
use crate::fragment::spec_setter;
use crate::fragment::spec_slot;
use crate::ident::builder_name;
use crate::ident::error_name;
use crate::ident::spec_builder_name;
use crate::ident::spec_error_name;
use crate::schema::extracted;
use crate::schema::field_views;
use crate::schema::Field;
use crate::schema::FieldView;
use crate::schema::RecordDescription;
use crate::schema::RecordDescriptionView;
use crate::schema::ShapeError;
use crate::schema::ShapeView;

verus! {

/// What the error of every emitted builder says, whichever field is missing.
pub const MISSING_FIELDS: &'static str = "Expected all fields to be defined.";

/// The emitted unit before it is laid out: the three names, and for each
/// of the four templates one fragment per field, in declaration order.
#[derive(Debug, Clone, PartialEq, Eq)]
pub struct Emission {
    pub record: String,
    pub builder: String,
    pub error: String,
    pub initializers: Vec<String>,
    pub slots: Vec<String>,
    pub steps: Vec<String>,
    pub setters: Vec<String>,
}

/// What an [`Emission`] is to a contract.
pub struct EmissionView {
    pub record: Seq<char>,
    pub builder: Seq<char>,
    pub error: Seq<char>,
    pub initializers: Seq<Seq<char>>,
    pub slots: Seq<Seq<char>>,
    pub steps: Seq<Seq<char>>,
    pub setters: Seq<Seq<char>>,
}

/// The characters of each text of a list, in the same order.
pub open spec fn texts(list: Seq<String>) -> Seq<Seq<char>> {
    Seq::new(list.len(), |i: int| list[i]@)
}

impl View for Emission {
    type V = EmissionView;

    open spec fn view(&self) -> EmissionView {
        EmissionView {
            record: self.record@,
            builder: self.builder@,
            error: self.error@,
            initializers: texts(self.initializers@),
            slots: texts(self.slots@),
            steps: texts(self.steps@),
            setters: texts(self.setters@),
        }
    }
}

/// The unit for the record called `record` with the given fields.
pub open spec fn spec_assemble(record: Seq<char>, fields: Seq<FieldView>) -> EmissionView {
    EmissionView {
        record,
        builder: spec_builder_name(record),
        error: spec_error_name(record),
        initializers: Seq::new(fields.len(), |i: int| spec_initializer(fields[i])),
        slots: Seq::new(fields.len(), |i: int| spec_slot(fields[i])),
        steps: Seq::new(
            fields.len(),
            |i: int| spec_assembly_step(fields[i], spec_error_name(record)),
        ),
        setters: Seq::new(fields.len(), |i: int| spec_setter(fields[i])),
    }
}

/// The fragments one per line, each behind `indent`.
pub open spec fn spec_block(indent: Seq<char>, fragments: Seq<Seq<char>>) -> Seq<char>
    decreases fragments.len(),
{
    if fragments.len() == 0 {
        Seq::empty()
    } else {
        spec_block(indent, fragments.drop_last()) + indent + fragments.last() + "\n"@
    }
}

/// The operation on the record that hands out an empty builder.
pub open spec fn spec_accessor(unit: EmissionView) -> Seq<char> {
    "impl "@ + unit.record + " {\n    pub fn builder() -> "@ + unit.builder + " {\n        "@
        + unit.builder + " {\n"@ + spec_block("            "@, unit.initializers)
        + "        }\n    }\n}\n"@
}

/// The definition of the builder: one slot per field.
pub open spec fn spec_builder_type(unit: EmissionView) -> Seq<char> {
    "pub struct "@ + unit.builder + " {\n"@ + spec_block("    "@, unit.slots) + "}\n"@
}

/// The definition of the error and of the text it is displayed as.
pub open spec fn spec_error_type(unit: EmissionView) -> Seq<char> {
    "#[derive(Debug, Clone)]\npub struct "@ + unit.error
        + ";\n\nimpl ::std::fmt::Display for "@ + unit.error
        + " {\n    fn fmt(&self, f: &mut ::std::fmt::Formatter) -> ::std::fmt::Result {\n        f.write_str(\""@
        + MISSING_FIELDS@ + "\")\n    }\n}\n"@
}

/// The builder's operations: the assembly, then the setters.
pub open spec fn spec_operations(unit: EmissionView) -> Seq<char> {
    "impl "@ + unit.builder + " {\n    pub fn build(&mut self) -> Result<"@ + unit.record + ", "@
        + unit.error + "> {\n        Ok("@ + unit.record + " {\n"@ + spec_block(
        "            "@,
        unit.steps,
    ) + "        })\n    }\n\n"@ + spec_block("    "@, unit.setters) + "}\n"@
}

/// The whole unit as source text: accessor, builder, error, operations,
/// with an empty line between any two of them.
pub open spec fn spec_render(unit: EmissionView) -> Seq<char> {
    spec_accessor(unit) + "\n"@ + spec_builder_type(unit) + "\n"@ + spec_error_type(unit) + "\n"@
        + spec_operations(unit)
}

/// What the generator yields for a description: the rendered unit of its
/// fields, or the reason why the description has no field list.
pub open spec fn spec_generate(desc: RecordDescriptionView) -> Result<Seq<char>, ShapeError> {
    match extracted(desc.shape) {
        Ok(fields) => Ok(spec_render(spec_assemble(desc.name, fields))),
        Err(e) => Err(e),
    }
}

/// A record with named fields is given the whole unit, with one fragment
/// of each kind per field, in declaration order: one slot and one setter
/// for each field, no more and no fewer.
pub proof fn lemma_one_setter_per_field(desc: RecordDescriptionView, fields: Seq<FieldView>)
    requires
        desc.shape == ShapeView::Named(fields),
    ensures
        spec_generate(desc) == Ok::<Seq<char>, ShapeError>(
            spec_render(spec_assemble(desc.name, fields)),
        ),
        spec_assemble(desc.name, fields).initializers.len() == fields.len(),
        spec_assemble(desc.name, fields).slots.len() == fields.len(),
        spec_assemble(desc.name, fields).steps.len() == fields.len(),
        spec_assemble(desc.name, fields).setters.len() == fields.len(),
        forall|i: int|
            0 <= i < fields.len() ==> #[trigger] spec_assemble(desc.name, fields).setters[i]
                == spec_setter(fields[i]),
        forall|i: int|
            0 <= i < fields.len() ==> #[trigger] spec_assemble(desc.name, fields).slots[i]
                == spec_slot(fields[i]),
{
}

/// Two descriptions that say the same yield the same: the same unit, and
/// the same text or the same refusal.
pub proof fn lemma_generation_is_deterministic(first: RecordDescription, second: RecordDescription)
    requires
        first@ == second@,
    ensures
        spec_generate(first@) == spec_generate(second@),
        extracted(first@.shape) is Ok ==> spec_assemble(
            first@.name,
            extracted(first@.shape)->Ok_0,
        ) == spec_assemble(second@.name, extracted(second@.shape)->Ok_0),
{
}

/// Appends the texts of `lines` to `out`, one per line behind `indent`.
fn append_block(out: &mut String, indent: &str, lines: &Vec<String>)
    ensures
        final(out)@ == old(out)@ + spec_block(indent@, texts(lines@)),
{
    let ghost all = texts(lines@);
    let mut i: usize = 0;
    assert(all.take(0) =~= Seq::<Seq<char>>::empty());
    assert(out@ =~= old(out)@ + spec_block(indent@, all.take(0)));
    while i < lines.len()
        invariant
            i <= lines.len(),
            all == texts(lines@),
            out@ == old(out)@ + spec_block(indent@, all.take(i as int)),
        decreases lines.len() - i,
    {
        let ghost before = out@;
        out.append(indent);
        out.append(lines[i].as_str());
        out.append("\n");
        proof {
            let next = all.take(i as int + 1);
            assert(next.drop_last() =~= all.take(i as int));
            assert(next.last() == lines@[i as int]@);
            assert(out@ =~= old(out)@ + spec_block(indent@, next));
        }
        i += 1;
    }
    assert(all.take(i as int) =~= all);
}

/// Stitches the unit for the record called `record`: its two companion
/// names, and the four fragments of every field, in the order of `fields`.
pub fn assemble(record: &str, fields: &Vec<Field>) -> (unit: Emission)
    ensures
        unit@ == spec_assemble(record@, field_views(fields@)),
{
    let error = error_name(record);
    let mut initializers: Vec<String> = Vec::new();
    let mut slots: Vec<String> = Vec::new();
    let mut steps: Vec<String> = Vec::new();
    let mut setters: Vec<String> = Vec::new();
    let mut i: usize = 0;
    while i < fields.len()
        invariant
            i <= fields.len(),
            error@ == spec_error_name(record@),
            initializers@.len() == i,
            slots@.len() == i,
            steps@.len() == i,
            setters@.len() == i,
            forall|j: int| 0 <= j < i ==> (#[trigger] initializers@[j])@ == spec_initializer(fields@[j]@),
            forall|j: int| 0 <= j < i ==> (#[trigger] slots@[j])@ == spec_slot(fields@[j]@),
            forall|j: int| 0 <= j < i ==> (#[trigger] steps@[j])@ == spec_assembly_step(fields@[j]@, error@),
            forall|j: int| 0 <= j < i ==> (#[trigger] setters@[j])@ == spec_setter(fields@[j]@),
        decreases fields.len() - i,
    {
        let field = &fields[i];
        initializers.push(initializer(field));
        slots.push(slot(field));
        steps.push(assembly_step(field, error.as_str()));
        setters.push(setter(field));
        i += 1;
    }
    let unit = Emission {
        record: String::from_str(record),
        builder: builder_name(record),
        error,
        initializers,
        slots,
        steps,
        setters,
    };
    proof {
        let want = spec_assemble(record@, field_views(fields@));
        assert(unit@.initializers =~= want.initializers);
        assert(unit@.slots =~= want.slots);
        assert(unit@.steps =~= want.steps);
        assert(unit@.setters =~= want.setters);
    }
    unit
}

impl Emission {
    /// The accessor on the record, as source text.
    pub fn accessor(&self) -> (text: String)
        ensures
            text@ == spec_accessor(self@),
    {
        let mut text = String::from_str("impl ");
        text.append(self.record.as_str());
        text.append(" {\n    pub fn builder() -> ");
        text.append(self.builder.as_str());
        text.append(" {\n        ");
        text.append(self.builder.as_str());
        text.append(" {\n");
        append_block(&mut text, "            ", &self.initializers);
        text.append("        }\n    }\n}\n");
        text
    }

    /// The builder's definition, as source text.
    pub fn builder_type(&self) -> (text: String)
        ensures
            text@ == spec_builder_type(self@),
    {
        let mut text = String::from_str("pub struct ");
        text.append(self.builder.as_str());
        text.append(" {\n");
        append_block(&mut text, "    ", &self.slots);
        text.append("}\n");
        text
    }

    /// The error's definition and its displayed text, as source text.
    pub fn error_type(&self) -> (text: String)
        ensures
            text@ == spec_error_type(self@),
    {
        let mut text = String::from_str("#[derive(Debug, Clone)]\npub struct ");
        text.append(self.error.as_str());
        text.append(";\n\nimpl ::std::fmt::Display for ");
        text.append(self.error.as_str());
        text.append(
            " {\n    fn fmt(&self, f: &mut ::std::fmt::Formatter) -> ::std::fmt::Result {\n        f.write_str(\"",
        );
        text.append(MISSING_FIELDS);
        text.append("\")\n    }\n}\n");
        text
    }

    /// The builder's assembly and setters, as source text.
    pub fn operations(&self) -> (text: String)
        ensures
            text@ == spec_operations(self@),
    {
        let mut text = String::from_str("impl ");
        text.append(self.builder.as_str());
        text.append(" {\n    pub fn build(&mut self) -> Result<");
        text.append(self.record.as_str());
        text.append(", ");
        text.append(self.error.as_str());
        text.append("> {\n        Ok(");
        text.append(self.record.as_str());
        text.append(" {\n");
        append_block(&mut text, "            ", &self.steps);
        text.append("        })\n    }\n\n");
        append_block(&mut text, "    ", &self.setters);
        text.append("}\n");
        text
    }

    /// The whole unit as source text.
    pub fn render(&self) -> (text: String)
        ensures
            text@ == spec_render(self@),
    {
        let mut text = self.accessor();
        text.append("\n");
        text.append(self.builder_type().as_str());
        text.append("\n");
        text.append(self.error_type().as_str());
        text.append("\n");
        text.append(self.operations().as_str());
        text
    }
}

/// Generates the source of the builder for `desc`.
///
/// Succeeds exactly on records with named fields, with the rendered unit
/// of the record's fields in declaration order. On any other shape nothing
/// is emitted and the reason is handed back.
pub fn generate(desc: &RecordDescription) -> (r: Result<String, ShapeError>)
    ensures
        match r {
            Ok(text) => spec_generate(desc@) == Ok::<Seq<char>, ShapeError>(text@),
            Err(e) => spec_generate(desc@) == Err::<Seq<char>, ShapeError>(e),
        },
{
    match desc.fields() {
        Ok(fields) => Ok(assemble(desc.name.as_str(), fields).render()),
        Err(e) => Err(e),
    }
}

} // verus!
