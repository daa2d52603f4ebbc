//! Three routines, each with an observer and a box whose observer points at
//! the first. Each gives the reports of its destructors in the order in
//! which they ran: at the end of a block the local declared last is
//! destroyed first.

use crate::boxes::{MyBox1, MyBox2, MyBox3};
use crate::heap::Heap;
use crate::observer::{PrintOnDrop, State};
use crate::stack::Stack;
use crate::text::{decimal_text, drop_line, int_text, observer_text, str_debug};
use vstd::prelude::*;

verus! {

/// The report of a valid observer named `name` around the number 13.
proof fn lemma_local_line(name: Seq<char>)
    ensures
        drop_line(name, int_text(13), State::Valid) == "drop PrintOnDrop("@ + name
            + ", 13, Valid)"@,
{
    reveal_with_fuel(decimal_text, 2);
    reveal_strlit("drop PrintOnDrop(");
    reveal_strlit(", ");
    reveal_strlit("1");
    reveal_strlit("3");
    reveal_strlit("Valid");
    reveal_strlit(")");
    reveal_strlit(", 13, Valid)");
    assert(drop_line(name, int_text(13), State::Valid) =~= "drop PrintOnDrop("@ + name
        + ", 13, Valid)"@);
}

/// The report of a valid observer named `name` that points at an observer
/// around the number 13, whose name in quotes is `quoted`.
proof fn lemma_box_line(name: Seq<char>, quoted: Seq<char>)
    ensures
        drop_line(name, observer_text(quoted, int_text(13), State::Valid), State::Valid)
            == "drop PrintOnDrop("@ + name + ", PrintOnDrop("@ + quoted
            + ", 13, Valid), Valid)"@,
        drop_line(name, observer_text(quoted, int_text(13), State::INVALID), State::Valid)
            == "drop PrintOnDrop("@ + name + ", PrintOnDrop("@ + quoted
            + ", 13, INVALID), Valid)"@,
{
    reveal_with_fuel(decimal_text, 2);
    reveal_strlit("drop PrintOnDrop(");
    reveal_strlit("PrintOnDrop(");
    reveal_strlit(", PrintOnDrop(");
    reveal_strlit(", ");
    reveal_strlit("1");
    reveal_strlit("3");
    reveal_strlit("Valid");
    reveal_strlit("INVALID");
    reveal_strlit(")");
    reveal_strlit(", 13, Valid), Valid)");
    reveal_strlit(", 13, INVALID), Valid)");
    assert(drop_line(name, observer_text(quoted, int_text(13), State::Valid), State::Valid)
        =~= "drop PrintOnDrop("@ + name + ", PrintOnDrop("@ + quoted
        + ", 13, Valid), Valid)"@);
    assert(drop_line(name, observer_text(quoted, int_text(13), State::INVALID), State::Valid)
        =~= "drop PrintOnDrop("@ + name + ", PrintOnDrop("@ + quoted
        + ", 13, INVALID), Valid)"@);
}

proof fn lemma_f1_lines()
    ensures
        drop_line(
            "mb1"@,
            observer_text(str_debug("v1"@), int_text(13), State::Valid),
            State::Valid,
        ) == "drop PrintOnDrop(mb1, PrintOnDrop("@ + str_debug("v1"@) + ", 13, Valid), Valid)"@,
        drop_line("v1"@, int_text(13), State::Valid) == "drop PrintOnDrop(v1, 13, Valid)"@,
{
    lemma_box_line("mb1"@, str_debug("v1"@));
    lemma_local_line("v1"@);
    reveal_strlit("drop PrintOnDrop(");
    reveal_strlit(", PrintOnDrop(");
    reveal_strlit(", 13, Valid)");
    reveal_strlit("mb1");
    reveal_strlit("v1");
    reveal_strlit("drop PrintOnDrop(mb1, PrintOnDrop(");
    reveal_strlit("drop PrintOnDrop(v1, 13, Valid)");
    assert("drop PrintOnDrop("@ + "mb1"@ + ", PrintOnDrop("@
        =~= "drop PrintOnDrop(mb1, PrintOnDrop("@);
    assert("drop PrintOnDrop("@ + "v1"@ + ", 13, Valid)"@ =~= "drop PrintOnDrop(v1, 13, Valid)"@);
}

proof fn lemma_f2_lines()
    ensures
        drop_line(
            "mb2a"@,
            observer_text(str_debug("v2a"@), int_text(13), State::Valid),
            State::Valid,
        ) == "drop PrintOnDrop(mb2a, PrintOnDrop("@ + str_debug("v2a"@)
            + ", 13, Valid), Valid)"@,
        drop_line("v2a"@, int_text(13), State::Valid) == "drop PrintOnDrop(v2a, 13, Valid)"@,
        drop_line("v2b"@, int_text(13), State::Valid) == "drop PrintOnDrop(v2b, 13, Valid)"@,
        drop_line(
            "mb2b"@,
            observer_text(str_debug("v2b"@), int_text(13), State::INVALID),
            State::Valid,
        ) == "drop PrintOnDrop(mb2b, PrintOnDrop("@ + str_debug("v2b"@)
            + ", 13, INVALID), Valid)"@,
{
    lemma_box_line("mb2a"@, str_debug("v2a"@));
    lemma_local_line("v2a"@);
    lemma_local_line("v2b"@);
    lemma_box_line("mb2b"@, str_debug("v2b"@));
    reveal_strlit("drop PrintOnDrop(");
    reveal_strlit(", PrintOnDrop(");
    reveal_strlit(", 13, Valid)");
    reveal_strlit("mb2a");
    reveal_strlit("v2a");
    reveal_strlit("v2b");
    reveal_strlit("mb2b");
    reveal_strlit("drop PrintOnDrop(mb2a, PrintOnDrop(");
    reveal_strlit("drop PrintOnDrop(v2a, 13, Valid)");
    reveal_strlit("drop PrintOnDrop(v2b, 13, Valid)");
    reveal_strlit("drop PrintOnDrop(mb2b, PrintOnDrop(");
    assert("drop PrintOnDrop("@ + "mb2a"@ + ", PrintOnDrop("@
        =~= "drop PrintOnDrop(mb2a, PrintOnDrop("@);
    assert("drop PrintOnDrop("@ + "v2a"@ + ", 13, Valid)"@
        =~= "drop PrintOnDrop(v2a, 13, Valid)"@);
    assert("drop PrintOnDrop("@ + "v2b"@ + ", 13, Valid)"@
        =~= "drop PrintOnDrop(v2b, 13, Valid)"@);
    assert("drop PrintOnDrop("@ + "mb2b"@ + ", PrintOnDrop("@
        =~= "drop PrintOnDrop(mb2b, PrintOnDrop("@);
}

proof fn lemma_f3_lines()
    ensures
        drop_line(
            "mb3"@,
            observer_text(str_debug("v3"@), int_text(13), State::Valid),
            State::Valid,
        ) == "drop PrintOnDrop(mb3, PrintOnDrop("@ + str_debug("v3"@) + ", 13, Valid), Valid)"@,
        drop_line("v3"@, int_text(13), State::Valid) == "drop PrintOnDrop(v3, 13, Valid)"@,
{
    lemma_box_line("mb3"@, str_debug("v3"@));
    lemma_local_line("v3"@);
    reveal_strlit("drop PrintOnDrop(");
    reveal_strlit(", PrintOnDrop(");
    reveal_strlit(", 13, Valid)");
    reveal_strlit("mb3");
    reveal_strlit("v3");
    reveal_strlit("drop PrintOnDrop(mb3, PrintOnDrop(");
    reveal_strlit("drop PrintOnDrop(v3, 13, Valid)");
    assert("drop PrintOnDrop("@ + "mb3"@ + ", PrintOnDrop("@
        =~= "drop PrintOnDrop(mb3, PrintOnDrop("@);
    assert("drop PrintOnDrop("@ + "v3"@ + ", 13, Valid)"@ =~= "drop PrintOnDrop(v3, 13, Valid)"@);
}

/// The standard box, declared after the observer that its value points at.
/// The box is destroyed first and shows that observer valid; the observer's
/// own report follows. Between the two pieces of the first line stands the
/// observer's name as `Debug` writes it.
pub fn f1() -> (log: Vec<String>)
    ensures
        log@.len() == 2,
        log@[0]@ == "drop PrintOnDrop(mb1, PrintOnDrop("@ + str_debug("v1"@)
            + ", 13, Valid), Valid)"@,
        log@[1]@ == "drop PrintOnDrop(v1, 13, Valid)"@,
{
    let mut log: Vec<String> = Vec::new();
    let mut stack = Stack::new();
    let v1 = stack.declare(PrintOnDrop::new("v1", 13));
    let mb1 = MyBox1::new(PrintOnDrop::new("mb1", v1));
    log.push(mb1.drop(&stack));
    log.push(stack.destroy(v1));
    proof {
        lemma_f1_lines();
    }
    log
}

/// The box without a marker, twice. In the first block the box is declared
/// after the observer that its value points at, and is destroyed first. In
/// the second block it is declared before that observer, so the observer is
/// destroyed first, and the box's value then reads it through a stale
/// address: the third report is the observer's own, and the fourth shows
/// that observer invalid.
pub fn f2() -> (log: Vec<String>)
    ensures
        log@.len() == 4,
        log@[0]@ == "drop PrintOnDrop(mb2a, PrintOnDrop("@ + str_debug("v2a"@)
            + ", 13, Valid), Valid)"@,
        log@[1]@ == "drop PrintOnDrop(v2a, 13, Valid)"@,
        log@[2]@ == "drop PrintOnDrop(v2b, 13, Valid)"@,
        log@[3]@ == "drop PrintOnDrop(mb2b, PrintOnDrop("@ + str_debug("v2b"@)
            + ", 13, INVALID), Valid)"@,
{
    let mut log: Vec<String> = Vec::new();
    {
        let mut stack = Stack::new();
        let mut heap = Heap::new();
        let v2a = stack.declare(PrintOnDrop::new("v2a", 13));
        let mb2a = MyBox2::new(&mut heap, PrintOnDrop::new("mb2a", v2a));
        log.push(mb2a.drop(&mut heap, &stack).unwrap());
        log.push(stack.destroy(v2a));
    }
    {
        let mut stack = Stack::new();
        let mut heap = Heap::new();
        let v2b = stack.declare(PrintOnDrop::new("v2b", 13));
        let mb2b = MyBox2::new(&mut heap, PrintOnDrop::new("mb2b", v2b));
        log.push(stack.destroy(v2b));
        log.push(mb2b.drop(&mut heap, &stack).unwrap());
    }
    proof {
        lemma_f2_lines();
    }
    log
}

/// The box with the marker, declared after the observer that its value
/// points at. The box is destroyed first and shows that observer valid; the
/// observer's own report follows.
pub fn f3() -> (log: Vec<String>)
    ensures
        log@.len() == 2,
        log@[0]@ == "drop PrintOnDrop(mb3, PrintOnDrop("@ + str_debug("v3"@)
            + ", 13, Valid), Valid)"@,
        log@[1]@ == "drop PrintOnDrop(v3, 13, Valid)"@,
{
    let mut log: Vec<String> = Vec::new();
    let mut stack = Stack::new();
    let mut heap = Heap::new();
    let v3 = stack.declare(PrintOnDrop::new("v3", 13));
    let mb3 = MyBox3::new(&mut heap, PrintOnDrop::new("mb3", v3));
    log.push(mb3.drop(&mut heap, &stack).unwrap());
    log.push(stack.destroy(v3));
    proof {
        lemma_f3_lines();
    }
    log
}

} // verus!
