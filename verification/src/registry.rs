//! A small table from names to values that keeps the order in which the
//! names came and holds no name twice.

use crate::text::{str_eq, texts};
use vstd::prelude::*;

verus! {

/// A table from names to values.
pub struct Registry<T> {
    names: Vec<String>,
    values: Vec<T>,
}

/// Whether each element of a list occurs in it once only.
pub open spec fn distinct(names: Seq<Seq<char>>) -> bool {
    forall|i: int, j: int| 0 <= i < j < names.len() ==> names[i] != names[j]
}

impl<T> Registry<T> {
    /// The names of the table, in the order in which they were added.
    pub closed spec fn names(&self) -> Seq<Seq<char>> {
        texts(self.names@)
    }

    /// The values of the table, each at the place of its name.
    pub closed spec fn values(&self) -> Seq<T> {
        self.values@
    }

    /// The table holds no name twice, and a value for each name.
    pub closed spec fn wf(&self) -> bool {
        distinct(self.names()) && self.names().len() == self.values().len()
    }

    /// In a well-formed table no name occurs twice, and there are as many
    /// values as names.
    pub proof fn lemma_wf(&self)
        requires
            self.wf(),
        ensures
            distinct(self.names()),
            self.values().len() == self.names().len(),
    {
    }

    /// An empty table.
    pub fn new() -> (table: Self)
        ensures
            table.wf(),
            table.names() == Seq::<Seq<char>>::empty(),
            table.values() == Seq::<T>::empty(),
    {
        let table = Registry { names: Vec::new(), values: Vec::new() };
        assert(table.names() =~= Seq::<Seq<char>>::empty());
        table
    }

    /// How many names the table holds.
    pub fn len(&self) -> (count: usize)
        ensures
            count == self.names().len(),
    {
        self.names.len()
    }

    /// The place of a name in the table, if the table holds it.
    pub fn position(&self, name: &str) -> (place: Option<usize>)
        ensures
            match place {
                Some(at) => at < self.names().len() && self.names()[at as int] == name@,
                None => !self.names().contains(name@),
            },
    {
        let mut i: usize = 0;
        while i < self.names.len()
            invariant
                i <= self.names.len(),
                forall|j: int| 0 <= j < i ==> self.names()[j] != name@,
            decreases self.names.len() - i,
        {
            if str_eq(self.names[i].as_str(), name) {
                return Some(i);
            }
            i += 1;
        }
        None
    }

    /// The names of the table, in the order in which they were added.
    pub fn names_list(&self) -> (list: Vec<String>)
        ensures
            texts(list@) == self.names(),
    {
        crate::text::clone_strings(&self.names)
    }

    /// The name at a place.
    pub fn name_at(&self, at: usize) -> (name: &str)
        requires
            at < self.names().len(),
        ensures
            name@ == self.names()[at as int],
    {
        self.names[at].as_str()
    }

    /// The value at a place.
    pub fn value_at(&self, at: usize) -> (value: &T)
        requires
            self.wf(),
            at < self.names().len(),
        ensures
            *value == self.values()[at as int],
    {
        &self.values[at]
    }

    /// The value at a place, to be changed; the names stay as they are.
    pub fn value_at_mut(&mut self, at: usize) -> (value: &mut T)
        requires
            old(self).wf(),
            at < old(self).names().len(),
        ensures
            *value == old(self).values()[at as int],
            final(self).names() == old(self).names(),
            final(self).values() == old(self).values().update(at as int, *final(value)),
            final(self).wf(),
    {
        &mut self.values[at]
    }

    /// Adds a name with its value at the end of the table.
    pub fn add(&mut self, name: String, value: T)
        requires
            old(self).wf(),
            !old(self).names().contains(name@),
        ensures
            final(self).wf(),
            final(self).names() == old(self).names().push(name@),
            final(self).values() == old(self).values().push(value),
    {
        let ghost before = self.names();
        let ghost added = name@;
        self.names.push(name);
        self.values.push(value);
        proof {
            assert(self.names() =~= before.push(added));
            assert forall|i: int, j: int| 0 <= i < j < self.names().len() implies self.names()[i]
                != self.names()[j] by {
                if j == before.len() {
                    assert(before[i] == self.names()[i]);
                    assert(before.contains(before[i]));
                } else {
                    assert(before[i] != before[j]);
                }
            }
        }
    }
}

} // verus!
