//! The behaviour of an emitted builder, for a record whose fields are
//! numbered in declaration order: slots that start unset, setters that
//! overwrite, and an assembly that empties the slots it reads.

use vstd::prelude::*;
use crate::assemble::MISSING_FIELDS;

verus! {

/// The error of every builder: some field was never assigned. It does not
/// say which.
#[derive(Debug, Clone, Copy, PartialEq, Eq, Structural)]
pub struct BuilderError;

impl BuilderError {
    /// The text that the error is displayed as.
    pub fn message(&self) -> (text: &'static str)
        ensures
            text@ == MISSING_FIELDS@,
    {
        MISSING_FIELDS
    }
}

/// The staging value of a record with values of type `V`: one slot per
/// field, each unset or holding the value last assigned to it.
#[derive(Debug)]
pub struct Builder<V> {
    slots: Vec<Option<V>>,
}

impl<V> View for Builder<V> {
    type V = Seq<Option<V>>;

    closed spec fn view(&self) -> Seq<Option<V>> {
        self.slots@
    }
}

/// The slots of a fresh builder for `fields` fields: all unset.
pub open spec fn spec_unset<V>(fields: nat) -> Seq<Option<V>> {
    Seq::new(fields, |i: int| None::<V>)
}

/// The slots after the setter of `field` was called with `value`.
pub open spec fn spec_set<V>(slots: Seq<Option<V>>, field: int, value: V) -> Seq<Option<V>> {
    slots.update(field, Some(value))
}

/// The index of the first unset slot, or the number of slots where every
/// one is set.
pub open spec fn spec_first_unset<V>(slots: Seq<Option<V>>) -> int
    decreases slots.len(),
{
    if slots.len() == 0 {
        0
    } else if slots.first() is None {
        0
    } else {
        1 + spec_first_unset(slots.drop_first())
    }
}

/// What an assembly yields: the values of all slots in order where every
/// slot is set, the error otherwise.
pub open spec fn spec_build<V>(slots: Seq<Option<V>>) -> Result<Seq<V>, BuilderError> {
    if spec_first_unset(slots) == slots.len() {
        Ok(Seq::new(slots.len(), |i: int| slots[i]->Some_0))
    } else {
        Err(BuilderError)
    }
}

/// The slots after an assembly: those before the first unset one were read
/// and are now unset, the others are as they were.
pub open spec fn spec_after_build<V>(slots: Seq<Option<V>>) -> Seq<Option<V>> {
    Seq::new(
        slots.len(),
        |i: int|
            if i < spec_first_unset(slots) {
                None
            } else {
                slots[i]
            },
    )
}

/// The slots after a run of setter calls, each given as field and value,
/// the earliest first.
pub open spec fn spec_set_all<V>(slots: Seq<Option<V>>, calls: Seq<(int, V)>) -> Seq<Option<V>>
    decreases calls.len(),
{
    if calls.len() == 0 {
        slots
    } else {
        spec_set(spec_set_all(slots, calls.drop_last()), calls.last().0, calls.last().1)
    }
}

/// The value of the latest call among `calls` that was made to the setter
/// of `field`, if there was one.
pub open spec fn spec_last_value<V>(calls: Seq<(int, V)>, field: int) -> Option<V>
    decreases calls.len(),
{
    if calls.len() == 0 {
        None
    } else if calls.last().0 == field {
        Some(calls.last().1)
    } else {
        spec_last_value(calls.drop_last(), field)
    }
}

/// Every call among `calls` is to the setter of one of `fields` fields.
pub open spec fn calls_in_range<V>(calls: Seq<(int, V)>, fields: nat) -> bool {
    forall|c: int| 0 <= c < calls.len() ==> 0 <= (#[trigger] calls[c]).0 < fields
}

/// The values of an assembled record, where there is one.
pub open spec fn record_view<V>(r: Result<Vec<V>, BuilderError>) -> Result<Seq<V>, BuilderError> {
    match r {
        Ok(values) => Ok(values@),
        Err(e) => Err(e),
    }
}

/// A scan from the left stops at `k` where every slot before `k` is set
/// and `k` is unset or past the end.
proof fn lemma_first_unset_at<V>(slots: Seq<Option<V>>, k: int)
    requires
        0 <= k <= slots.len(),
        forall|i: int| 0 <= i < k ==> slots[i] is Some,
        k < slots.len() ==> slots[k] is None,
    ensures
        spec_first_unset(slots) == k,
    decreases slots.len(),
{
    if slots.len() > 0 && k > 0 {
        let rest = slots.drop_first();
        assert(forall|i: int| 0 <= i < k - 1 ==> rest[i] == slots[i + 1]);
        lemma_first_unset_at(rest, k - 1);
    }
}

/// Where a scan from the left stops: within the slots or just past them,
/// behind set slots only, and on an unset slot unless it is past the end.
pub proof fn lemma_first_unset<V>(slots: Seq<Option<V>>)
    ensures
        0 <= spec_first_unset(slots) <= slots.len(),
        forall|i: int| 0 <= i < spec_first_unset(slots) ==> slots[i] is Some,
        spec_first_unset(slots) < slots.len() ==> slots[spec_first_unset(slots)] is None,
    decreases slots.len(),
{
    if slots.len() > 0 && slots.first() is Some {
        let rest = slots.drop_first();
        lemma_first_unset(rest);
        assert forall|i: int| 0 <= i < spec_first_unset(slots) implies slots[i] is Some by {
            if i > 0 {
                assert(slots[i] == rest[i - 1]);
            }
        }
        assert(spec_first_unset(slots) < slots.len() ==> slots[spec_first_unset(slots)]
            == rest[spec_first_unset(rest)]);
    }
}

/// A run of setter calls keeps the number of slots, and leaves in each
/// slot the value of the latest call to its setter, or what the slot held
/// where its setter was not called.
pub proof fn lemma_set_all<V>(slots: Seq<Option<V>>, calls: Seq<(int, V)>, field: int)
    requires
        calls_in_range(calls, slots.len()),
        0 <= field < slots.len(),
    ensures
        spec_set_all(slots, calls).len() == slots.len(),
        spec_set_all(slots, calls)[field] == (match spec_last_value(calls, field) {
            Some(value) => Some(value),
            None => slots[field],
        }),
    decreases calls.len(),
{
    if calls.len() > 0 {
        let earlier = calls.drop_last();
        assert(forall|c: int| 0 <= c < earlier.len() ==> earlier[c] == calls[c]);
        lemma_set_all(slots, earlier, field);
        assert(0 <= calls[calls.len() - 1].0 < slots.len());
    }
}

/// Last write wins: where a fresh builder was given a run of setter calls
/// and the assembly then succeeds, each field of the record holds the value
/// of the latest call to its setter.
pub proof fn lemma_last_write_wins<V>(fields: nat, calls: Seq<(int, V)>, field: int)
    requires
        calls_in_range(calls, fields),
        0 <= field < fields,
        spec_build(spec_set_all(spec_unset::<V>(fields), calls)) is Ok,
    ensures
        spec_last_value(calls, field) is Some,
        spec_build(spec_set_all(spec_unset::<V>(fields), calls))->Ok_0[field] == spec_last_value(
            calls,
            field,
        )->Some_0,
{
    let slots = spec_set_all(spec_unset::<V>(fields), calls);
    lemma_set_all(spec_unset::<V>(fields), calls, field);
    lemma_first_unset(slots);
}

/// A field whose setter was never called fails the assembly: the error
/// comes back and no record.
pub proof fn lemma_unset_field_fails<V>(fields: nat, calls: Seq<(int, V)>, field: int)
    requires
        calls_in_range(calls, fields),
        0 <= field < fields,
        spec_last_value(calls, field) is None,
    ensures
        spec_build(spec_set_all(spec_unset::<V>(fields), calls)) == Err::<Seq<V>, BuilderError>(
            BuilderError,
        ),
{
    let slots = spec_set_all(spec_unset::<V>(fields), calls);
    lemma_set_all(spec_unset::<V>(fields), calls, field);
    lemma_first_unset(slots);
}

/// The assembly succeeds exactly where the setter of every field was
/// called at least once.
pub proof fn lemma_build_succeeds_iff_all_set<V>(fields: nat, calls: Seq<(int, V)>)
    requires
        calls_in_range(calls, fields),
    ensures
        spec_build(spec_set_all(spec_unset::<V>(fields), calls)) is Ok <==> forall|field: int|
            0 <= field < fields ==> spec_last_value(calls, field) is Some,
{
    let slots = spec_set_all(spec_unset::<V>(fields), calls);
    assert forall|field: int| 0 <= field < fields implies slots.len() == fields && (slots[field]
        is Some <==> spec_last_value(calls, field) is Some) by {
        lemma_set_all(spec_unset::<V>(fields), calls, field);
    }
    lemma_first_unset(slots);
    if fields == 0 {
        assert(slots.len() == 0) by {
            lemma_set_all_len(spec_unset::<V>(fields), calls);
        }
    }
    if forall|field: int| 0 <= field < fields ==> spec_last_value(calls, field) is Some {
        lemma_first_unset_at(slots, slots.len() as int);
    }
}

/// A run of setter calls keeps the number of slots.
proof fn lemma_set_all_len<V>(slots: Seq<Option<V>>, calls: Seq<(int, V)>)
    requires
        calls_in_range(calls, slots.len()),
    ensures
        spec_set_all(slots, calls).len() == slots.len(),
    decreases calls.len(),
{
    if calls.len() > 0 {
        let earlier = calls.drop_last();
        assert(forall|c: int| 0 <= c < earlier.len() ==> earlier[c] == calls[c]);
        lemma_set_all_len(slots, earlier);
        assert(0 <= calls[calls.len() - 1].0 < slots.len());
    }
}

/// An assembly consumes what it reads: after one that succeeded on a
/// record with at least one field, the next one fails unless the fields
/// are set again.
pub proof fn lemma_second_build_fails<V>(slots: Seq<Option<V>>)
    requires
        slots.len() >= 1,
        spec_build(slots) is Ok,
    ensures
        spec_after_build(slots) == spec_unset::<V>(slots.len()),
        spec_build(spec_after_build(slots)) == Err::<Seq<V>, BuilderError>(BuilderError),
{
    let after = spec_after_build(slots);
    assert(after =~= spec_unset::<V>(slots.len()));
    lemma_first_unset_at(after, 0);
}

/// A failed assembly leaves a builder on which the next one fails too.
pub proof fn lemma_failed_build_stays_failed<V>(slots: Seq<Option<V>>)
    requires
        spec_build(slots) is Err,
    ensures
        spec_build(spec_after_build(slots)) is Err,
{
    let after = spec_after_build(slots);
    lemma_first_unset(slots);
    lemma_first_unset_at(after, 0);
}

impl<V> Builder<V> {
    /// An empty builder for a record of `fields` fields.
    pub fn new(fields: usize) -> (builder: Self)
        ensures
            builder@ == spec_unset::<V>(fields as nat),
    {
        let mut slots: Vec<Option<V>> = Vec::new();
        let mut i: usize = 0;
        while i < fields
            invariant
                i <= fields,
                slots@.len() == i,
                forall|j: int| 0 <= j < i ==> slots@[j] is None,
            decreases fields - i,
        {
            slots.push(None);
            i += 1;
        }
        assert(slots@ =~= spec_unset::<V>(fields as nat));
        Builder { slots }
    }

    /// The number of fields.
    pub fn len(&self) -> (n: usize)
        ensures
            n == self@.len(),
    {
        self.slots.len()
    }

    /// Whether `field` holds a value.
    pub fn is_set(&self, field: usize) -> (set: bool)
        requires
            field < self@.len(),
        ensures
            set == (self@[field as int] is Some),
    {
        self.slots[field].is_some()
    }

    /// The setter of `field`: stores `value` over whatever the slot held,
    /// and hands the builder back for the next call.
    pub fn set(&mut self, field: usize, value: V) -> (chain: &mut Self)
        requires
            field < old(self)@.len(),
        ensures
            chain@ == spec_set(old(self)@, field as int, value),
            *final(self) == *final(chain),
    {
        self.slots[field] = Some(value);
        self
    }

    /// The assembly: reads the slots in declaration order and empties each
    /// one it reads, up to the first that is unset.
    ///
    /// Where every slot was set, the record's values come back in order
    /// and the builder is left empty. Otherwise the error comes back, the
    /// slots before the first unset one are emptied all the same, and those
    /// behind it keep what they held.
    pub fn build(&mut self) -> (r: Result<Vec<V>, BuilderError>)
        ensures
            record_view(r) == spec_build(old(self)@),
            final(self)@ == spec_after_build(old(self)@),
    {
        let ghost before = self.slots@;
        let mut values: Vec<V> = Vec::new();
        let mut i: usize = 0;
        while i < self.slots.len()
            invariant
                before == old(self)@,
                self.slots@.len() == before.len(),
                i <= before.len(),
                values@.len() == i,
                forall|j: int| 0 <= j < i ==> #[trigger] before[j] == Some(values@[j]),
                forall|j: int| 0 <= j < i ==> #[trigger] self.slots@[j] is None,
                forall|j: int| i <= j < before.len() ==> #[trigger] self.slots@[j] == before[j],
            decreases before.len() - i,
        {
            match self.slots[i].take() {
                Some(value) => {
                    values.push(value);
                },
                None => {
                    proof {
                        lemma_first_unset_at(before, i as int);
                        assert(self.slots@ =~= spec_after_build(before));
                    }
                    return Err(BuilderError);
                },
            }
            i += 1;
        }
        proof {
            lemma_first_unset_at(before, i as int);
            assert(self.slots@ =~= spec_after_build(before));
            assert(values@ =~= spec_build(before)->Ok_0);
        }
        Ok(values)
    }
}

} // verus!
