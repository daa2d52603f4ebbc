use drop_order::observer::State;
use drop_order::text::{state_name, write_drop_line, write_i32, write_observer};

#[test]
fn state_names_are_the_variant_names() {
    assert_eq!(state_name(State::Valid), "Valid");
    assert_eq!(state_name(State::INVALID), "INVALID");
    assert_eq!(state_name(State::Valid), format!("{:?}", State::Valid));
    assert_eq!(state_name(State::INVALID), format!("{:?}", State::INVALID));
}

#[test]
fn write_i32_single_digits() {
    for n in 0..10 {
        assert_eq!(write_i32(n), format!("{:?}", n));
    }
    assert_eq!(write_i32(0), "0");
    assert_eq!(write_i32(7), "7");
}

#[test]
fn write_i32_thirteen() {
    assert_eq!(write_i32(13), "13");
}

#[test]
fn write_i32_keeps_inner_and_trailing_zeros() {
    assert_eq!(write_i32(10), "10");
    assert_eq!(write_i32(100), "100");
    assert_eq!(write_i32(1005), "1005");
    assert_eq!(write_i32(90210), "90210");
}

#[test]
fn write_i32_negative_numbers_carry_a_minus_sign() {
    assert_eq!(write_i32(-1), "-1");
    assert_eq!(write_i32(-13), "-13");
    assert_eq!(write_i32(-1000), "-1000");
}

#[test]
fn write_i32_at_the_ends_of_the_range() {
    assert_eq!(write_i32(i32::MAX), "2147483647");
    assert_eq!(write_i32(i32::MIN), "-2147483648");
    assert_eq!(write_i32(i32::MIN + 1), "-2147483647");
}

#[test]
fn write_i32_agrees_with_debug_formatting() {
    let mut n: i32 = i32::MIN;
    loop {
        assert_eq!(write_i32(n), format!("{:?}", n));
        match n.checked_add(7_654_321) {
            Some(next) => n = next,
            None => break,
        }
    }
    for n in -1234..1234 {
        assert_eq!(write_i32(n), format!("{:?}", n));
    }
}

#[test]
fn write_observer_joins_the_three_parts() {
    assert_eq!(
        write_observer("\"v1\"", "13", State::Valid),
        "PrintOnDrop(\"v1\", 13, Valid)"
    );
    assert_eq!(
        write_observer("a", "b", State::INVALID),
        "PrintOnDrop(a, b, INVALID)"
    );
}

#[test]
fn write_observer_with_empty_parts() {
    assert_eq!(write_observer("", "", State::Valid), "PrintOnDrop(, , Valid)");
}

#[test]
fn write_drop_line_joins_the_three_parts() {
    assert_eq!(
        write_drop_line("v1", "13", State::Valid),
        "drop PrintOnDrop(v1, 13, Valid)"
    );
    assert_eq!(
        write_drop_line("mb2b", "PrintOnDrop(\"v2b\", 13, INVALID)", State::Valid),
        "drop PrintOnDrop(mb2b, PrintOnDrop(\"v2b\", 13, INVALID), Valid)"
    );
    assert_eq!(
        write_drop_line("gone", "0", State::INVALID),
        "drop PrintOnDrop(gone, 0, INVALID)"
    );
}

#[test]
fn write_drop_line_with_empty_parts() {
    assert_eq!(write_drop_line("", "", State::Valid), "drop PrintOnDrop(, , Valid)");
}
