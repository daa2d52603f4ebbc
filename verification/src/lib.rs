//! Observers that report their own destruction, three boxes for one value
//! each, and routines that show in which order the locals of a block are
//! destroyed.
//!
//! Destruction is explicit here. A destructor is a function that gives back
//! the line it reports, and a routine calls the destructors of its locals in
//! the order in which the end of its block runs them. The locals that other
//! values point at live on a [`stack::Stack`], where a slot stays readable
//! after its destructor has run; the cells that the boxes own live on a
//! [`heap::Heap`].

pub mod boxes;
pub mod heap;
pub mod observer;
pub mod routines;
pub mod stack;
pub mod text;
