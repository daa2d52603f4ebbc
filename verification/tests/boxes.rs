use drop_order::boxes::{MyBox1, MyBox2, MyBox3};
use drop_order::heap::Heap;
use drop_order::observer::{PrintOnDrop, State};
use drop_order::stack::{Addr, Stack};

fn flags(heap: &Heap<PrintOnDrop<Addr>>) -> Vec<Option<State>> {
    heap.cells
        .iter()
        .map(|cell| cell.as_ref().map(|observer| observer.2))
        .collect()
}

#[test]
fn a_new_heap_has_no_cells() {
    let heap: Heap<i32> = Heap::new();
    assert!(heap.cells.is_empty());
}

#[test]
fn allocate_hands_out_cells_in_order() {
    let mut heap = Heap::new();
    assert_eq!(heap.allocate(10), 0);
    assert_eq!(heap.allocate(20), 1);
    assert_eq!(heap.allocate(30), 2);
    assert_eq!(heap.cells, vec![Some(10), Some(20), Some(30)]);
}

#[test]
fn release_gives_the_value_and_empties_the_cell() {
    let mut heap = Heap::new();
    heap.allocate(10);
    heap.allocate(20);
    assert_eq!(heap.release(0), Some(10));
    assert_eq!(heap.cells, vec![None, Some(20)]);
    assert_eq!(heap.release(1), Some(20));
    assert_eq!(heap.cells, vec![None, None]);
}

#[test]
fn release_of_a_released_cell_gives_nothing() {
    let mut heap = Heap::new();
    heap.allocate(10);
    assert_eq!(heap.release(0), Some(10));
    assert_eq!(heap.release(0), None);
    assert_eq!(heap.cells, vec![None]);
}

#[test]
fn release_of_an_address_never_handed_out_gives_nothing() {
    let mut heap = Heap::new();
    heap.allocate(10);
    assert_eq!(heap.release(1), None);
    assert_eq!(heap.release(usize::MAX), None);
    assert_eq!(heap.cells, vec![Some(10)]);
}

#[test]
fn a_released_cell_is_not_handed_out_again() {
    let mut heap = Heap::new();
    heap.allocate(10);
    heap.release(0);
    assert_eq!(heap.allocate(20), 1);
    assert_eq!(heap.cells, vec![None, Some(20)]);
}

#[test]
fn my_box1_holds_its_value() {
    let made = MyBox1::new(13);
    assert_eq!(*made.v, 13);
}

#[test]
fn my_box1_holds_an_observer_untouched() {
    let made = MyBox1::new(PrintOnDrop::new("mb1", 13));
    assert_eq!(made.v.0, "mb1");
    assert_eq!(made.v.1, 13);
    assert_eq!(made.v.2, State::Valid);
}

#[test]
fn my_box1_ends_with_the_report_of_its_observer() {
    let mut stack = Stack::new();
    let at = stack.declare(PrintOnDrop::new("v", 13));
    let made = MyBox1::new(PrintOnDrop::new("mb", at));
    assert_eq!(
        made.drop(&stack),
        "drop PrintOnDrop(mb, PrintOnDrop(\"v\", 13, Valid), Valid)"
    );
    assert_eq!(stack.slots[0].2, State::Valid);
}

#[test]
fn my_box2_keeps_the_address_of_its_cell() {
    let mut heap = Heap::new();
    heap.allocate(1);
    let made = MyBox2::new(&mut heap, 2);
    assert_eq!(made.v, 1);
    assert_eq!(heap.cells, vec![Some(1), Some(2)]);
}

#[test]
fn my_box2_reports_and_releases_its_cell() {
    let mut stack = Stack::new();
    let mut heap = Heap::new();
    let at = stack.declare(PrintOnDrop::new("v", 13));
    let made = MyBox2::new(&mut heap, PrintOnDrop::new("mb", at));
    assert_eq!(flags(&heap), vec![Some(State::Valid)]);
    assert_eq!(
        made.drop(&mut heap, &stack),
        Some("drop PrintOnDrop(mb, PrintOnDrop(\"v\", 13, Valid), Valid)".to_string())
    );
    assert_eq!(flags(&heap), vec![None]);
    assert_eq!(stack.slots[0].2, State::Valid);
}

#[test]
fn my_box2_reads_a_destroyed_local_as_invalid() {
    let mut stack = Stack::new();
    let mut heap = Heap::new();
    let at = stack.declare(PrintOnDrop::new("v", 13));
    let made = MyBox2::new(&mut heap, PrintOnDrop::new("mb", at));
    assert_eq!(stack.destroy(at), "drop PrintOnDrop(v, 13, Valid)");
    assert_eq!(
        made.drop(&mut heap, &stack),
        Some("drop PrintOnDrop(mb, PrintOnDrop(\"v\", 13, INVALID), Valid)".to_string())
    );
    assert_eq!(flags(&heap), vec![None]);
}

#[test]
fn my_box2_on_a_heap_without_its_cell_reports_nothing() {
    let stack = Stack::new();
    let mut heap = Heap::new();
    let made = MyBox2::new(&mut heap, PrintOnDrop::new("mb", 1));
    let mut other: Heap<PrintOnDrop<i32>> = Heap::new();
    assert_eq!(made.drop(&mut other, &stack), None);
    assert!(other.cells.is_empty());
    assert_eq!(heap.cells.len(), 1);
    assert!(heap.cells[0].is_some());
}

#[test]
fn my_box2_on_a_released_cell_reports_nothing() {
    let stack = Stack::new();
    let mut heap = Heap::new();
    let made = MyBox2::new(&mut heap, PrintOnDrop::new("mb", 1));
    assert!(heap.release(0).is_some());
    assert_eq!(made.drop(&mut heap, &stack), None);
    assert_eq!(heap.cells.len(), 1);
    assert!(heap.cells[0].is_none());
}

#[test]
fn my_box3_keeps_the_address_of_its_cell() {
    let mut heap = Heap::new();
    heap.allocate(1);
    let made = MyBox3::new(&mut heap, 2);
    assert_eq!(made.v, 1);
    assert_eq!(heap.cells, vec![Some(1), Some(2)]);
}

#[test]
fn my_box3_reports_and_releases_its_cell() {
    let mut stack = Stack::new();
    let mut heap = Heap::new();
    let at = stack.declare(PrintOnDrop::new("v", 13));
    let made = MyBox3::new(&mut heap, PrintOnDrop::new("mb", at));
    assert_eq!(flags(&heap), vec![Some(State::Valid)]);
    assert_eq!(
        made.drop(&mut heap, &stack),
        Some("drop PrintOnDrop(mb, PrintOnDrop(\"v\", 13, Valid), Valid)".to_string())
    );
    assert_eq!(flags(&heap), vec![None]);
    assert_eq!(stack.slots[0].2, State::Valid);
}

#[test]
fn my_box3_on_a_heap_without_its_cell_reports_nothing() {
    let stack = Stack::new();
    let mut heap = Heap::new();
    let made = MyBox3::new(&mut heap, PrintOnDrop::new("mb", 1));
    let mut other: Heap<PrintOnDrop<i32>> = Heap::new();
    assert_eq!(made.drop(&mut other, &stack), None);
    assert!(other.cells.is_empty());
    assert_eq!(heap.cells.len(), 1);
    assert!(heap.cells[0].is_some());
}

#[test]
fn my_box3_takes_no_more_room_than_my_box2() {
    assert_eq!(
        std::mem::size_of::<MyBox3<PrintOnDrop<Addr>>>(),
        std::mem::size_of::<MyBox2>()
    );
}

#[test]
fn two_boxes_on_one_heap_release_their_own_cells() {
    let mut stack = Stack::new();
    let mut heap = Heap::new();
    let at = stack.declare(PrintOnDrop::new("v", 7));
    let first = MyBox2::new(&mut heap, PrintOnDrop::new("first", at));
    let second = MyBox3::new(&mut heap, PrintOnDrop::new("second", at));
    assert_eq!(first.v, 0);
    assert_eq!(second.v, 1);
    assert_eq!(
        first.drop(&mut heap, &stack),
        Some("drop PrintOnDrop(first, PrintOnDrop(\"v\", 7, Valid), Valid)".to_string())
    );
    assert_eq!(flags(&heap), vec![None, Some(State::Valid)]);
    assert_eq!(
        second.drop(&mut heap, &stack),
        Some("drop PrintOnDrop(second, PrintOnDrop(\"v\", 7, Valid), Valid)".to_string())
    );
    assert_eq!(flags(&heap), vec![None, None]);
}
