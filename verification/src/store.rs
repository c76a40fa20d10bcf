//! The operations on a store: list every entry, get one, create one.
//!
//! A store only grows. An entry is created once, with the label that the
//! classifier gives its number, and is never overwritten or removed.
//!
//! Listing and getting borrow the store, creating borrows it exclusively:
//! no two operations can touch one store at the same time, and a store
//! that several threads share has to sit behind a lock that hands it out
//! to one of them at a time.

use crate::classifier::{check_number, classify};
use crate::models::{Number, Numbers};
use vstd::prelude::*;

verus! {

broadcast use vstd::std_specs::hash::group_hash_axioms;

/// Why an operation on a store did not give an entry.
#[derive(Debug, Clone, Copy, PartialEq, Eq, Structural)]
pub enum StoreError {
    /// No entry is stored for the number that was asked for.
    NotFound,
    /// An entry for the number is stored already.
    Conflict,
}

/// The entries after a request to create `number`: unchanged where the
/// number is present, else extended by the number with its label.
pub open spec fn store_after_create(entries: Map<usize, Seq<char>>, number: usize) -> Map<
    usize,
    Seq<char>,
> {
    if entries.contains_key(number) {
        entries
    } else {
        entries.insert(number, classify(number as nat))
    }
}

/// What a request to create `number` answers: a conflict where the number
/// is present, else the new entry.
pub open spec fn create_outcome(entries: Map<usize, Seq<char>>, number: usize) -> Result<
    (usize, Seq<char>),
    StoreError,
> {
    if entries.contains_key(number) {
        Err(StoreError::Conflict)
    } else {
        Ok((number, classify(number as nat)))
    }
}

/// What a request to get `number` answers: the stored entry, or that there
/// is none.
pub open spec fn get_outcome(entries: Map<usize, Seq<char>>, number: usize) -> Result<
    (usize, Seq<char>),
    StoreError,
> {
    if entries.contains_key(number) {
        Ok((number, entries[number]))
    } else {
        Err(StoreError::NotFound)
    }
}

/// The entries after one request to create each of `numbers`, in order.
pub open spec fn store_after_creates(entries: Map<usize, Seq<char>>, numbers: Seq<usize>) -> Map<
    usize,
    Seq<char>,
>
    decreases numbers.len(),
{
    if numbers.len() == 0 {
        entries
    } else {
        store_after_create(store_after_creates(entries, numbers.drop_last()), numbers.last())
    }
}

/// An answer with its entry, if any, taken by its view.
pub open spec fn outcome_view(outcome: Result<Number, StoreError>) -> Result<
    (usize, Seq<char>),
    StoreError,
> {
    match outcome {
        Ok(entry) => Ok(entry@),
        Err(e) => Err(e),
    }
}

impl Numbers {
    /// A copy of all entries, independent of the store from then on. The
    /// store itself stays as it is.
    pub fn list(&self) -> (snapshot: Numbers)
        ensures
            snapshot@ == self@,
            snapshot.wf() == self.wf(),
    {
        let snapshot = Numbers { numbers: self.numbers.clone() };
        assert(snapshot@ =~= self@);
        snapshot
    }

    /// The entry stored for `number`, or `NotFound` where there is none.
    /// The store itself stays as it is.
    pub fn get(&self, number: usize) -> (outcome: Result<Number, StoreError>)
        ensures
            outcome_view(outcome) == get_outcome(self@, number),
            outcome is Ok <==> self@.contains_key(number),
            outcome matches Ok(entry) ==> entry.number == number && entry.result@ == self@[number],
            outcome matches Err(e) ==> e == StoreError::NotFound,
            self.wf() ==> (outcome matches Ok(entry) ==> entry.result@ == classify(number as nat)),
    {
        match self.numbers.get(&number) {
            Some(label) => Ok(Number::new(number, label.clone())),
            None => Err(StoreError::NotFound),
        }
    }

    /// Stores `number` with its label and returns the new entry, unless an
    /// entry for `number` exists: then the store stays as it is and the
    /// answer is `Conflict`.
    pub fn create(&mut self, number: usize) -> (outcome: Result<Number, StoreError>)
        ensures
            final(self)@ == store_after_create(old(self)@, number),
            outcome_view(outcome) == create_outcome(old(self)@, number),
            outcome is Ok <==> !old(self)@.contains_key(number),
            outcome matches Ok(entry) ==> {
                &&& entry.number == number
                &&& entry.result@ == classify(number as nat)
                &&& final(self)@ == old(self)@.insert(number, entry.result@)
            },
            outcome matches Err(e) ==> e == StoreError::Conflict && *final(self) == *old(self),
            old(self).wf() ==> final(self).wf(),
    {
        if self.numbers.contains_key(&number) {
            return Err(StoreError::Conflict);
        }
        let label = check_number(number);
        self.numbers.insert(number, label.clone());
        assert(self@ =~= old(self)@.insert(number, classify(number as nat)));
        Ok(Number::new(number, label))
    }
}

/// Listing is repeatable: where nothing is created between two listings
/// of a store, both give the same mapping.
pub proof fn lemma_list_idempotent(
    before: Numbers,
    first: Numbers,
    after: Numbers,
    second: Numbers,
)
    requires
        first@ == before@,
        after@ == store_after_creates(before@, Seq::empty()),
        second@ == after@,
    ensures
        first@ == second@,
{
}

/// An entry, once stored, stays: whatever is created later, of the same or
/// of other numbers, its number is still present with the same label.
pub proof fn lemma_entries_are_kept(
    entries: Map<usize, Seq<char>>,
    later: Seq<usize>,
    number: usize,
)
    requires
        entries.contains_key(number),
    ensures
        store_after_creates(entries, later).contains_key(number),
        store_after_creates(entries, later)[number] == entries[number],
    decreases later.len(),
{
    if later.len() > 0 {
        lemma_entries_are_kept(entries, later.drop_last(), number);
    }
}

/// Creation happens once per number: after a first request to create
/// `number`, and whatever is created later, a further request for `number`
/// is a conflict, leaves the store as it is, and finds the label that the
/// first request stored.
pub proof fn lemma_create_exactly_once(
    entries: Map<usize, Seq<char>>,
    number: usize,
    later: Seq<usize>,
)
    ensures
        ({
            let first = store_after_create(entries, number);
            let then = store_after_creates(first, later);
            &&& create_outcome(then, number) == Err::<(usize, Seq<char>), _>(StoreError::Conflict)
            &&& store_after_create(then, number) == then
            &&& then[number] == first[number]
        }),
{
    lemma_entries_are_kept(store_after_create(entries, number), later, number);
}

/// A lookup after a successful creation gives the entry that the creation
/// returned, also when other numbers were created in between.
pub proof fn lemma_get_after_create(
    entries: Map<usize, Seq<char>>,
    number: usize,
    later: Seq<usize>,
)
    requires
        create_outcome(entries, number) is Ok,
    ensures
        get_outcome(store_after_creates(store_after_create(entries, number), later), number)
            == create_outcome(entries, number),
{
    lemma_entries_are_kept(store_after_create(entries, number), later, number);
}

} // verus!
