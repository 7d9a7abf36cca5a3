//! The substitution table: the nodes that later text of a mangled name can
//! refer back to, in the order in which they were parsed.

use vstd::prelude::*;
use crate::ast::Substitutable;
use crate::error::Error;
use crate::model;

verus! {

/// An append-only sequence of substitutable nodes. An entry keeps its index
/// for good: nothing is ever removed or changed.
#[derive(Clone, Debug, PartialEq, Eq)]
pub struct SubstitutionTable {
    entries: Vec<Substitutable>,
}

impl View for SubstitutionTable {
    type V = Seq<model::Substitutable>;

    closed spec fn view(&self) -> Seq<model::Substitutable> {
        Seq::new(self.entries@.len(), |i: int| self.entries@[i]@)
    }
}

impl SubstitutionTable {
    /// A table without entries.
    pub fn new() -> (table: SubstitutionTable)
        ensures
            table@ == Seq::<model::Substitutable>::empty(),
    {
        let table = SubstitutionTable { entries: Vec::new() };
        assert(table@ =~= Seq::<model::Substitutable>::empty());
        table
    }

    /// Appends `node` and returns its index.
    pub fn insert(&mut self, node: Substitutable) -> (idx: usize)
        ensures
            final(self)@ == old(self)@.push(node@),
            idx == old(self)@.len(),
    {
        let idx = self.entries.len();
        self.entries.push(node);
        assert(self@ =~= old(self)@.push(node@));
        idx
    }

    /// The entry at `idx`; `InvalidBackReference` where there is none.
    pub fn get(&self, idx: usize) -> (r: Result<&Substitutable, Error>)
        ensures
            idx < self@.len() ==> (r matches Ok(node) && node@ == self@[idx as int]),
            idx >= self@.len() ==> r == Err::<&Substitutable, Error>(Error::InvalidBackReference),
    {
        if idx < self.entries.len() {
            Ok(&self.entries[idx])
        } else {
            Err(Error::InvalidBackReference)
        }
    }

    /// The number of entries.
    pub fn len(&self) -> (n: usize)
        ensures
            n == self@.len(),
    {
        self.entries.len()
    }

    /// Whether the table has no entry.
    pub fn is_empty(&self) -> (b: bool)
        ensures
            b <==> self@.len() == 0,
    {
        self.entries.len() == 0
    }
}

} // verus!
