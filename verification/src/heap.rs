//! Storage that a box asks for when it is made and gives back when it is
//! destroyed.

use vstd::prelude::*;

verus! {

/// Cells of storage for one value each, numbered in the order in which they
/// were handed out. A cell holds its value until it is released; a released
/// cell is never handed out again.
pub struct Heap<T> {
    pub cells: Vec<Option<T>>,
}

impl<T> View for Heap<T> {
    type V = Seq<Option<T>>;

    open spec fn view(&self) -> Seq<Option<T>> {
        self.cells@
    }
}

impl<T> Heap<T> {
    /// The cell at `at` has been handed out and not yet released.
    pub open spec fn live(&self, at: usize) -> bool {
        at < self@.len() && self@[at as int] is Some
    }

    /// The value in the cell at `at`.
    pub open spec fn held(&self, at: usize) -> T
        recommends
            self.live(at),
    {
        self@[at as int]->0
    }

    /// A heap with no cell handed out.
    pub fn new() -> (heap: Heap<T>)
        ensures
            heap@ == Seq::<Option<T>>::empty(),
    {
        Heap { cells: Vec::new() }
    }

    /// Hands out a fresh cell with `value` written into it, and gives the
    /// cell's address.
    pub fn allocate(&mut self, value: T) -> (at: usize)
        ensures
            at == old(self)@.len(),
            final(self)@ == old(self)@.push(Some(value)),
    {
        let at = self.cells.len();
        self.cells.push(Some(value));
        at
    }

    /// Reads the value out of the cell at `at` and releases the cell. Gives
    /// nothing, and changes nothing, where no live cell has that address.
    pub fn release(&mut self, at: usize) -> (value: Option<T>)
        ensures
            old(self).live(at) ==> value == Some(old(self).held(at)) && final(self)@ == old(
                self,
            )@.update(at as int, None),
            !old(self).live(at) ==> value is None && final(self)@ == old(self)@,
    {
        if at < self.cells.len() {
            let value = self.cells[at].take();
            assert(self@ =~= old(self)@.update(at as int, None));
            value
        } else {
            None
        }
    }
}

} // verus!
