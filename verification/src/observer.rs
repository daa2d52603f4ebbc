//! The observer: a named value that reports its own destruction.

use crate::stack::Stack;
use crate::text::{
    drop_line, int_text, observer_text, quote, str_debug, write_drop_line, write_i32,
    write_observer,
};
use vstd::prelude::*;

verus! {

/// Whether an observer's destructor has run.
#[allow(non_camel_case_types)]
#[derive(Clone, Copy, Debug, PartialEq, Eq, Structural)]
pub enum State {
    INVALID,
    Valid,
}

/// A value that can be shown in a report. What is shown may depend on the
/// locals of the enclosing block, because a value may hold the address of
/// one of them.
pub trait Inspect {
    /// Every address held in the value is that of a slot of `stack`.
    spec fn readable(&self, stack: Seq<PrintOnDrop<i32>>) -> bool;

    /// Every address held in the value is that of a local of `stack` whose
    /// destructor has not run.
    spec fn intact(&self, stack: Seq<PrintOnDrop<i32>>) -> bool;

    /// The value as it is shown while the block's locals are `stack`.
    spec fn shown(&self, stack: Seq<PrintOnDrop<i32>>) -> Seq<char>;

    /// A value that points only at locals that are still valid points only
    /// at slots that exist.
    proof fn intact_is_readable(&self, stack: Seq<PrintOnDrop<i32>>)
        requires
            self.intact(stack),
        ensures
            self.readable(stack),
    ;

    /// Writes the value as it is shown now.
    fn inspect(&self, stack: &Stack) -> (text: String)
        requires
            self.readable(stack@),
        ensures
            text@ == self.shown(stack@),
    ;
}

/// A name, an inner value and a flag. The flag is `Valid` from construction
/// until the destructor has run, and `INVALID` from then on.
pub struct PrintOnDrop<T>(pub &'static str, pub T, pub State);

impl<T> PrintOnDrop<T> {
    /// The observer as its destructor leaves it.
    pub open spec fn destroyed(self) -> Self {
        PrintOnDrop(self.0, self.1, State::INVALID)
    }
}

impl<T: Inspect> PrintOnDrop<T> {
    /// The line that the destructor reports while the block's locals are
    /// `stack`.
    pub open spec fn report(&self, stack: Seq<PrintOnDrop<i32>>) -> Seq<char> {
        drop_line(self.0@, self.1.shown(stack), self.2)
    }

    /// A new observer, valid.
    pub fn new(name: &'static str, t: T) -> (observer: Self)
        ensures
            observer == PrintOnDrop(name, t, State::Valid),
    {
        PrintOnDrop(name, t, State::Valid)
    }

    /// The destructor: reports the name, the inner value and the flag as
    /// they are now, then marks the observer invalid.
    pub fn drop(&mut self, stack: &Stack) -> (line: String)
        requires
            old(self).1.readable(stack@),
        ensures
            line@ == old(self).report(stack@),
            *final(self) == old(self).destroyed(),
    {
        let inner = self.1.inspect(stack);
        let line = write_drop_line(self.0, inner.as_str(), self.2);
        self.2 = State::INVALID;
        line
    }
}

impl Inspect for i32 {
    open spec fn readable(&self, stack: Seq<PrintOnDrop<i32>>) -> bool {
        true
    }

    open spec fn intact(&self, stack: Seq<PrintOnDrop<i32>>) -> bool {
        true
    }

    open spec fn shown(&self, stack: Seq<PrintOnDrop<i32>>) -> Seq<char> {
        int_text(*self as int)
    }

    proof fn intact_is_readable(&self, stack: Seq<PrintOnDrop<i32>>) {
    }

    fn inspect(&self, stack: &Stack) -> (text: String) {
        write_i32(*self)
    }
}

impl<T: Inspect> Inspect for PrintOnDrop<T> {
    open spec fn readable(&self, stack: Seq<PrintOnDrop<i32>>) -> bool {
        self.1.readable(stack)
    }

    open spec fn intact(&self, stack: Seq<PrintOnDrop<i32>>) -> bool {
        self.1.intact(stack)
    }

    open spec fn shown(&self, stack: Seq<PrintOnDrop<i32>>) -> Seq<char> {
        observer_text(str_debug(self.0@), self.1.shown(stack), self.2)
    }

    proof fn intact_is_readable(&self, stack: Seq<PrintOnDrop<i32>>) {
        self.1.intact_is_readable(stack);
    }

    fn inspect(&self, stack: &Stack) -> (text: String) {
        let name = quote(self.0);
        let inner = self.1.inspect(stack);
        write_observer(name.as_str(), inner.as_str(), self.2)
    }
}

} // verus!
