//! Three boxes for one value each. They differ in how the type records that
//! the box owns its value, and with that in what the end of the box asks of
//! the locals that the value points at.

use crate::heap::Heap;
use crate::observer::{Inspect, PrintOnDrop};
use crate::stack::Stack;
use core::marker::PhantomData;
use vstd::prelude::*;

verus! {

/// Owns its value through the standard box.
pub struct MyBox1<T> {
    pub v: Box<T>,
}

/// Owns its value through the address of a heap cell and nothing else: the
/// type keeps no record of what lies there.
pub struct MyBox2 {
    pub v: usize,
}

/// As `MyBox2`, with a marker of no size that records the type of the value
/// that the box owns.
pub struct MyBox3<T> {
    pub v: usize,
    pub _pd: PhantomData<T>,
}

impl<T> MyBox1<T> {
    /// A box around `t`.
    pub fn new(t: T) -> (made: Self)
        ensures
            *made.v == t,
    {
        MyBox1 { v: Box::new(t) }
    }
}

impl<T: Inspect> MyBox1<PrintOnDrop<T>> {
    /// The end of the box: the observer in it is destroyed and reports.
    /// Every local that the observer points at must still be valid.
    pub fn drop(self, stack: &Stack) -> (line: String)
        requires
            self.v.intact(stack@),
        ensures
            line@ == self.v.report(stack@),
    {
        proof {
            self.v.intact_is_readable(stack@);
        }
        let mut observer = *self.v;
        observer.drop(stack)
    }
}

impl MyBox2 {
    /// Takes a fresh cell of `heap`, writes `t` into it and keeps the
    /// cell's address.
    pub fn new<T>(heap: &mut Heap<T>, t: T) -> (made: Self)
        ensures
            made.v == old(heap)@.len(),
            final(heap)@ == old(heap)@.push(Some(t)),
    {
        MyBox2 { v: heap.allocate(t) }
    }

    /// The destructor: reads the observer out of the box's cell, destroys
    /// it, which reports, and releases the cell. Nothing is asked of the
    /// locals that the observer points at but that their slots exist: one
    /// whose destructor has run is reported as invalid. Where `heap` has no
    /// live cell at the box's address, nothing is reported and `heap` stays
    /// as it is.
    pub fn drop<T: Inspect>(self, heap: &mut Heap<PrintOnDrop<T>>, stack: &Stack) -> (line: Option<
        String,
    >)
        requires
            old(heap).live(self.v) ==> old(heap).held(self.v).readable(stack@),
        ensures
            old(heap).live(self.v) ==> line is Some && line->0@ == old(heap).held(self.v).report(
                stack@,
            ) && final(heap)@ == old(heap)@.update(self.v as int, None),
            !old(heap).live(self.v) ==> line is None && final(heap)@ == old(heap)@,
    {
        match heap.release(self.v) {
            Some(mut observer) => Some(observer.drop(stack)),
            None => None,
        }
    }
}

impl<T> MyBox3<T> {
    /// Takes a fresh cell of `heap`, writes `t` into it and keeps the
    /// cell's address.
    pub fn new(heap: &mut Heap<T>, t: T) -> (made: Self)
        ensures
            made.v == old(heap)@.len(),
            final(heap)@ == old(heap)@.push(Some(t)),
    {
        MyBox3 { v: heap.allocate(t), _pd: PhantomData }
    }
}

impl<T: Inspect> MyBox3<PrintOnDrop<T>> {
    /// The destructor: reads the observer out of the box's cell, destroys
    /// it, which reports, and releases the cell. Every local that the
    /// observer points at must still be valid. Where `heap` has no live cell
    /// at the box's address, nothing is reported and `heap` stays as it is.
    pub fn drop(self, heap: &mut Heap<PrintOnDrop<T>>, stack: &Stack) -> (line: Option<String>)
        requires
            old(heap).live(self.v) ==> old(heap).held(self.v).intact(stack@),
        ensures
            old(heap).live(self.v) ==> line is Some && line->0@ == old(heap).held(self.v).report(
                stack@,
            ) && final(heap)@ == old(heap)@.update(self.v as int, None),
            !old(heap).live(self.v) ==> line is None && final(heap)@ == old(heap)@,
    {
        proof {
            if heap.live(self.v) {
                heap.held(self.v).intact_is_readable(stack@);
            }
        }
        match heap.release(self.v) {
            Some(mut observer) => Some(observer.drop(stack)),
            None => None,
        }
    }
}

} // verus!
