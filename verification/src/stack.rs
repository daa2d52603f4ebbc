//! The locals of one block that other values point at.

use crate::observer::{Inspect, PrintOnDrop, State};
use crate::text::{drop_line, int_text, observer_text, str_debug};
use vstd::prelude::*;

verus! {

/// The address of a local: the number of its slot, counted in the order of
/// declaration.
#[derive(Clone, Copy, Debug)]
pub struct Addr {
    pub slot: usize,
}

/// The observers that a block has declared, first declared first. A slot
/// stays where it is after its observer's destructor has run, so that a
/// stale address still reads what the destructor left there.
pub struct Stack {
    pub slots: Vec<PrintOnDrop<i32>>,
}

impl View for Stack {
    type V = Seq<PrintOnDrop<i32>>;

    open spec fn view(&self) -> Seq<PrintOnDrop<i32>> {
        self.slots@
    }
}

/// The locals after the destructor of the one at `slot` has run.
pub open spec fn after_destroy(stack: Seq<PrintOnDrop<i32>>, slot: int) -> Seq<PrintOnDrop<i32>>
    recommends
        0 <= slot < stack.len(),
{
    stack.update(slot, stack[slot].destroyed())
}

impl Stack {
    /// A block that has declared nothing yet.
    pub fn new() -> (stack: Stack)
        ensures
            stack@ == Seq::<PrintOnDrop<i32>>::empty(),
    {
        Stack { slots: Vec::new() }
    }

    /// Declares one more local and gives its address.
    pub fn declare(&mut self, observer: PrintOnDrop<i32>) -> (at: Addr)
        ensures
            final(self)@ == old(self)@.push(observer),
            at.slot == old(self)@.len(),
    {
        let slot = self.slots.len();
        self.slots.push(observer);
        Addr { slot }
    }

    /// Runs the destructor of the local at `at` and gives its report. The
    /// slot keeps the name and the inner value; its flag is now `INVALID`.
    pub fn destroy(&mut self, at: Addr) -> (line: String)
        requires
            at.slot < old(self)@.len(),
        ensures
            line@ == old(self)@[at.slot as int].report(old(self)@),
            final(self)@ == after_destroy(old(self)@, at.slot as int),
    {
        // The destructor reads the stack, so it runs on a copy of the slot,
        // and what it leaves is written back.
        let slot = &self.slots[at.slot];
        let mut local = PrintOnDrop(slot.0, slot.1, slot.2);
        let line = local.drop(self);
        self.slots[at.slot] = local;
        line
    }
}

impl Inspect for Addr {
    open spec fn readable(&self, stack: Seq<PrintOnDrop<i32>>) -> bool {
        self.slot < stack.len()
    }

    open spec fn intact(&self, stack: Seq<PrintOnDrop<i32>>) -> bool {
        self.slot < stack.len() && stack[self.slot as int].2 == State::Valid
    }

    open spec fn shown(&self, stack: Seq<PrintOnDrop<i32>>) -> Seq<char> {
        stack[self.slot as int].shown(stack)
    }

    proof fn intact_is_readable(&self, stack: Seq<PrintOnDrop<i32>>) {
    }

    fn inspect(&self, stack: &Stack) -> (text: String) {
        stack.slots[self.slot].inspect(stack)
    }
}

/// An observer that points at a local reports that local as valid for as
/// long as the local's destructor has not run.
pub proof fn lemma_intact_reports_valid(stack: Seq<PrintOnDrop<i32>>, pointing: PrintOnDrop<Addr>)
    requires
        pointing.intact(stack),
    ensures
        pointing.report(stack) == drop_line(
            pointing.0@,
            observer_text(
                str_debug(stack[pointing.1.slot as int].0@),
                int_text(stack[pointing.1.slot as int].1 as int),
                State::Valid,
            ),
            pointing.2,
        ),
{
}

/// Once a local's destructor has run, an observer that points at it is no
/// longer intact, and reports the local as invalid.
pub proof fn lemma_stale_reports_invalid(stack: Seq<PrintOnDrop<i32>>, pointing: PrintOnDrop<Addr>)
    requires
        pointing.readable(stack),
    ensures
        !pointing.intact(after_destroy(stack, pointing.1.slot as int)),
        pointing.report(after_destroy(stack, pointing.1.slot as int)) == drop_line(
            pointing.0@,
            observer_text(
                str_debug(stack[pointing.1.slot as int].0@),
                int_text(stack[pointing.1.slot as int].1 as int),
                State::INVALID,
            ),
            pointing.2,
        ),
{
}

/// The destructor of one local changes nothing for an observer that points
/// at another: it stays intact if it was, and reports what it would have
/// reported before.
pub proof fn lemma_other_local_destroyed(
    stack: Seq<PrintOnDrop<i32>>,
    pointing: PrintOnDrop<Addr>,
    slot: int,
)
    requires
        pointing.readable(stack),
        0 <= slot < stack.len(),
        slot != pointing.1.slot,
    ensures
        pointing.readable(after_destroy(stack, slot)),
        pointing.intact(after_destroy(stack, slot)) == pointing.intact(stack),
        pointing.report(after_destroy(stack, slot)) == pointing.report(stack),
{
}

} // verus!
