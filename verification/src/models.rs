//! The data: one labelled number, and the collection of all of them.

use crate::classifier::classify;
use std::collections::HashMap;
use vstd::prelude::*;

verus! {

/// A number together with its label.
#[derive(Debug)]
pub struct Number {
    pub number: usize,
    pub result: String,
}

impl View for Number {
    type V = (usize, Seq<char>);

    /// The number, and its label as a sequence of characters.
    open spec fn view(&self) -> (usize, Seq<char>) {
        (self.number, self.result@)
    }
}

impl Number {
    /// An entry for `number` with the label `result`.
    pub fn new(number: usize, result: String) -> (entry: Self)
        ensures
            entry.number == number,
            entry.result == result,
            entry@ == (number, result@),
    {
        Self { number, result }
    }
}

impl Clone for Number {
    /// A copy with the same number and the same label.
    fn clone(&self) -> (copy: Self)
        ensures
            copy == *self,
    {
        Number { number: self.number, result: self.result.clone() }
    }
}

/// The labels that have been stored, by number.
///
/// The map is open to its users. What the operations of this library put
/// into it keeps `wf`; what others put into it is taken as it is.
#[derive(Debug)]
pub struct Numbers {
    pub numbers: HashMap<usize, String>,
}

impl View for Numbers {
    type V = Map<usize, Seq<char>>;

    /// The mapping from each stored number to its label. A number has at
    /// most one label.
    open spec fn view(&self) -> Map<usize, Seq<char>> {
        self.numbers@.map_values(|label: String| label@)
    }
}

impl Numbers {
    /// Every stored label is the one that the classifier gives its number.
    pub open spec fn wf(&self) -> bool {
        forall|n: usize| #[trigger] self@.contains_key(n) ==> self@[n] == classify(n as nat)
    }

    /// A store without entries.
    pub fn new() -> (store: Numbers)
        ensures
            store@ == Map::<usize, Seq<char>>::empty(),
            store.wf(),
    {
        Numbers { numbers: HashMap::new() }
    }
}

} // verus!
