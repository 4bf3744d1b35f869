use num_ordinal::{Ordinal, Osize, O128, O16, O32, O64, O8};

#[test]
fn fifth_minus_three_is_second() {
    assert!(O32::from1(5) - 3 == O32::from1(2));
    assert_eq!((O32::from1(5) - 3).to_string(), "second");
}

#[test]
fn fifth_minus_second_is_three() {
    assert_eq!(O32::from1(5) - O32::from1(2), 3);
}

#[test]
fn arithmetic_in_every_width() {
    assert!(O8::from1(5) - 3 == O8::from1(2));
    assert_eq!(O8::from1(5) - O8::from1(2), 3);
    assert!(O16::from1(5) - 3 == O16::from1(2));
    assert_eq!(O16::from1(5) - O16::from1(2), 3);
    assert!(O64::from1(5) - 3 == O64::from1(2));
    assert_eq!(O64::from1(5) - O64::from1(2), 3);
    assert!(O128::from1(5) - 3 == O128::from1(2));
    assert_eq!(O128::from1(5) - O128::from1(2), 3);
    assert!(Osize::from1(5) - 3 == Osize::from1(2));
    assert_eq!(Osize::from1(5) - Osize::from1(2), 3);
}

#[test]
fn adding_an_integer_moves_forward() {
    assert!(O32::from1(2) + 3 == O32::from1(5));
    assert_eq!((O8::from0(0) + 3).to_string(), "4th");
    assert_eq!((O16::from0(10) + 10).into0(), 20);
    assert_eq!((O64::from0(7) + 0).into0(), 7);
    assert_eq!((O128::from0(1) + 1).into1(), 3);
    assert_eq!((Osize::from1(1) + 20).to_string(), "21st");
}

#[test]
fn adding_up_to_the_last_ordinal() {
    assert_eq!((O8::from0(0) + (u8::MAX - 1)).into1(), u8::MAX);
    assert_eq!((O8::from0(200) + 54).into0(), 254);
    assert_eq!((O16::from0(1) + (u16::MAX - 2)).into1(), u16::MAX);
    assert_eq!((O32::from0(u32::MAX - 2) + 1).into0(), u32::MAX - 1);
    assert_eq!((O64::from0(0) + (u64::MAX - 1)).into1(), u64::MAX);
    assert_eq!((O128::from0(5) + (u128::MAX - 6)).into1(), u128::MAX);
    assert_eq!((Osize::from0(usize::MAX - 1) + 0).into1(), usize::MAX);
}

#[test]
fn subtracting_down_to_the_first_ordinal() {
    assert!(O8::from0(254) - 254 == O8::first());
    assert!(O16::from1(7) - 6 == O16::first());
    assert!(O32::from0(0) - 0 == O32::first());
    assert!(O64::from0(u64::MAX - 1) - (u64::MAX - 1) == O64::first());
    assert!(O128::from1(2) - 1 == O128::first());
    assert!(Osize::from0(9) - 9 == Osize::first());
}

#[test]
fn distance_between_ordinals() {
    assert_eq!(O8::from0(254) - O8::from0(0), 254);
    assert_eq!(O16::from0(9) - O16::from0(9), 0);
    assert_eq!(O32::from0(u32::MAX - 1) - O32::first(), u32::MAX - 1);
    assert_eq!(O64::from1(100) - O64::from1(1), 99);
    assert_eq!(O128::from0(u128::MAX - 1) - O128::from0(1), u128::MAX - 2);
    assert_eq!(Osize::from1(3) - Osize::from0(2), 0);
}

#[test]
fn adding_then_subtracting_returns() {
    for v in 0..100u8 {
        for d in 0..100u8 {
            let a = O8::from0(v);
            assert!((a + d) - d == a);
            assert_eq!((a + d) - a, d);
        }
    }
}

#[test]
fn next_is_adding_one() {
    for v in 0..u8::MAX - 1 {
        assert!(O8::from0(v).next() == O8::from0(v) + 1);
    }
    assert!(O64::from0(41).next() == O64::from0(41) + 1);
}
