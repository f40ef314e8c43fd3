//! The names of the two companion types, derived from the record's name.

use vstd::prelude::*;

verus! {

/// The name of the builder of the record called `record`.
pub open spec fn spec_builder_name(record: Seq<char>) -> Seq<char> {
    record + "Builder"@
}

/// The name of the error that the builder of `record` reports.
pub open spec fn spec_error_name(record: Seq<char>) -> Seq<char> {
    record + "BuilderError"@
}

/// The builder's name: the record's name followed by `Builder`.
///
/// Nothing is checked against the names that the surrounding program
/// already uses.
pub fn builder_name(record: &str) -> (name: String)
    ensures
        name@ == spec_builder_name(record@),
{
    String::from_str(record).concat("Builder")
}

/// The error's name: the record's name followed by `BuilderError`.
pub fn error_name(record: &str) -> (name: String)
    ensures
        name@ == spec_error_name(record@),
{
    String::from_str(record).concat("BuilderError")
}

/// The two synthesized names differ from the record's name and from each
/// other, whatever the record is called.
pub proof fn lemma_names_are_distinct(record: Seq<char>)
    ensures
        spec_builder_name(record) != record,
        spec_error_name(record) != record,
        spec_builder_name(record) != spec_error_name(record),
{
    reveal_strlit("Builder");
    reveal_strlit("BuilderError");
    assert(spec_builder_name(record).len() == record.len() + 7);
    assert(spec_error_name(record).len() == record.len() + 12);
}

} // verus!
