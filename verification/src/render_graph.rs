//! Names by number: a set that gives each distinct value the index at which
//! it first came.

use vstd::prelude::*;
use vstd::std_specs::cmp::PartialEqSpec;

verus! {

/// Distinct values in the order in which they first came.
pub struct IndexSet<T>(Vec<T>);

impl<T> View for IndexSet<T> {
    type V = Seq<T>;

    closed spec fn view(&self) -> Seq<T> {
        self.0@
    }
}

/// The first index at or after `from` at which `items` holds `value`, and
/// the length of `items` if there is none.
pub open spec fn first_index_of<T>(items: Seq<T>, value: T, from: int) -> int
    decreases items.len() - from,
{
    if from < 0 || from >= items.len() {
        items.len() as int
    } else if items[from] == value {
        from
    } else {
        first_index_of(items, value, from + 1)
    }
}

impl<T: Copy + PartialEq> IndexSet<T> {
    /// The empty set.
    pub fn new() -> (set: Self)
        ensures
            set@ == Seq::<T>::empty(),
    {
        IndexSet(Vec::new())
    }

    /// The index of `value`; a value that is not in the set yet is added at
    /// the end.
    pub fn get(&mut self, value: &T) -> (index: usize)
        requires
            T::obeys_eq_spec(),
            forall|a: T, b: T| #[trigger] a.eq_spec(&b) <==> a == b,
        ensures
            index == first_index_of(old(self)@, *value, 0),
            index < old(self)@.len() ==> final(self)@ == old(self)@,
            index == old(self)@.len() ==> final(self)@ == old(self)@.push(*value),
            final(self)@[index as int] == *value,
    {
        let mut index: usize = 0;
        while index < self.0.len()
            invariant
                index <= self.0@.len(),
                self.0@ == old(self).0@,
                T::obeys_eq_spec(),
                forall|a: T, b: T| #[trigger] a.eq_spec(&b) <==> a == b,
                first_index_of(self.0@, *value, 0) == first_index_of(self.0@, *value, index as int),
            decreases self.0@.len() - index,
        {
            if self.0[index] == *value {
                return index;
            }
            index = index + 1;
        }
        self.0.push(*value);
        index
    }
}

} // verus!
