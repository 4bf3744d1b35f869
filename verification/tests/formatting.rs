use num_ordinal::text::ordinal_string;
use num_ordinal::{Ordinal, Osize, O128, O16, O32, O64, O8};

fn expected(n: u128) -> String {
    match n {
        1 => "first".to_string(),
        2 => "second".to_string(),
        3 => "third".to_string(),
        _ => {
            let text = format!("{}", n);
            let tail = if text.ends_with("11") || text.ends_with("12") || text.ends_with("13") {
                "th"
            } else if text.ends_with('1') {
                "st"
            } else if text.ends_with('2') {
                "nd"
            } else if text.ends_with('3') {
                "rd"
            } else {
                "th"
            };
            format!("{}{}", text, tail)
        }
    }
}

#[test]
fn display_exactness() {
    assert_eq!(O32::from0(0).to_string(), "first");
    assert_eq!(O32::from0(1).to_string(), "second");
    assert_eq!(O32::from0(2).to_string(), "third");
    assert_eq!(O32::from0(3).to_string(), "4th");
    assert_eq!(O32::from0(10).to_string(), "11th");
    assert_eq!(O32::from0(11).to_string(), "12th");
    assert_eq!(O32::from0(20).to_string(), "21st");
    assert_eq!(O32::from0(110).to_string(), "111th");
}

#[test]
fn display_exactness_in_every_width() {
    assert_eq!(O8::from0(110).to_string(), "111th");
    assert_eq!(O16::from0(110).to_string(), "111th");
    assert_eq!(O64::from0(110).to_string(), "111th");
    assert_eq!(O128::from0(110).to_string(), "111th");
    assert_eq!(Osize::from0(110).to_string(), "111th");
    assert_eq!(O8::from0(20).to_string(), "21st");
    assert_eq!(O16::from0(20).to_string(), "21st");
    assert_eq!(O64::from0(20).to_string(), "21st");
    assert_eq!(O128::from0(20).to_string(), "21st");
    assert_eq!(Osize::from0(20).to_string(), "21st");
}

#[test]
fn zero_based_and_one_based_text() {
    assert_eq!(Osize::from0(3).to_string(), "4th");
    assert_eq!(Osize::from1(3).to_string(), "third");
}

#[test]
fn suffix_follows_the_last_digit() {
    assert_eq!(O16::from1(4).to_string(), "4th");
    assert_eq!(O16::from1(5).to_string(), "5th");
    assert_eq!(O16::from1(9).to_string(), "9th");
    assert_eq!(O16::from1(10).to_string(), "10th");
    assert_eq!(O16::from1(20).to_string(), "20th");
    assert_eq!(O16::from1(21).to_string(), "21st");
    assert_eq!(O16::from1(22).to_string(), "22nd");
    assert_eq!(O16::from1(23).to_string(), "23rd");
    assert_eq!(O16::from1(24).to_string(), "24th");
    assert_eq!(O16::from1(31).to_string(), "31st");
    assert_eq!(O16::from1(42).to_string(), "42nd");
    assert_eq!(O16::from1(53).to_string(), "53rd");
    assert_eq!(O16::from1(100).to_string(), "100th");
    assert_eq!(O16::from1(101).to_string(), "101st");
    assert_eq!(O16::from1(102).to_string(), "102nd");
    assert_eq!(O16::from1(103).to_string(), "103rd");
    assert_eq!(O16::from1(1000).to_string(), "1000th");
    assert_eq!(O16::from1(1001).to_string(), "1001st");
}

#[test]
fn eleven_twelve_thirteen_take_th() {
    assert_eq!(O16::from1(11).to_string(), "11th");
    assert_eq!(O16::from1(12).to_string(), "12th");
    assert_eq!(O16::from1(13).to_string(), "13th");
    assert_eq!(O16::from1(111).to_string(), "111th");
    assert_eq!(O16::from1(112).to_string(), "112th");
    assert_eq!(O16::from1(113).to_string(), "113th");
    assert_eq!(O16::from1(211).to_string(), "211th");
    assert_eq!(O16::from1(1011).to_string(), "1011th");
    assert_eq!(O16::from1(1012).to_string(), "1012th");
    assert_eq!(O16::from1(1013).to_string(), "1013th");
    assert_eq!(O16::from1(121).to_string(), "121st");
    assert_eq!(O16::from1(122).to_string(), "122nd");
    assert_eq!(O16::from1(123).to_string(), "123rd");
}

#[test]
fn text_of_the_last_ordinal_of_each_width() {
    assert_eq!(O8::from1(u8::MAX).to_string(), "255th");
    assert_eq!(O16::from1(u16::MAX).to_string(), "65535th");
    assert_eq!(O32::from1(u32::MAX).to_string(), "4294967295th");
    assert_eq!(O64::from1(u64::MAX).to_string(), "18446744073709551615th");
    assert_eq!(
        O128::from1(u128::MAX).to_string(),
        "340282366920938463463374607431768211455th"
    );
    assert_eq!(Osize::from1(usize::MAX).to_string(), format!("{}th", usize::MAX));
}

#[test]
fn text_of_large_numbers() {
    assert_eq!(O32::from1(4_294_967_291).to_string(), "4294967291st");
    assert_eq!(O64::from1(18_446_744_073_709_551_612).to_string(), "18446744073709551612th");
    assert_eq!(O64::from1(18_446_744_073_709_551_602).to_string(), "18446744073709551602nd");
    assert_eq!(
        O128::from1(340_282_366_920_938_463_463_374_607_431_768_211_453).to_string(),
        "340282366920938463463374607431768211453rd"
    );
    assert_eq!(O128::from1(1_000_000_000_000_000_000_000).to_string(), "1000000000000000000000th");
}

#[test]
fn text_of_every_u8_ordinal() {
    for v in 0..u8::MAX {
        assert_eq!(O8::from0(v).to_string(), expected(v as u128 + 1));
    }
}

#[test]
fn text_of_every_u16_ordinal() {
    for v in 0..u16::MAX {
        assert_eq!(O16::from0(v).to_string(), expected(v as u128 + 1));
    }
}

#[test]
fn ordinal_string_writes_the_one_based_number() {
    assert_eq!(ordinal_string(1), "first");
    assert_eq!(ordinal_string(2), "second");
    assert_eq!(ordinal_string(3), "third");
    assert_eq!(ordinal_string(4), "4th");
    assert_eq!(ordinal_string(10), "10th");
    assert_eq!(ordinal_string(21), "21st");
    assert_eq!(ordinal_string(32), "32nd");
    assert_eq!(ordinal_string(43), "43rd");
    assert_eq!(ordinal_string(111), "111th");
    assert_eq!(ordinal_string(0), "0th");
}

#[test]
fn ordinal_string_keeps_inner_zeros() {
    assert_eq!(ordinal_string(100), "100th");
    assert_eq!(ordinal_string(101), "101st");
    assert_eq!(ordinal_string(1000), "1000th");
    assert_eq!(ordinal_string(10_203), "10203rd");
    assert_eq!(ordinal_string(90_000_000_002), "90000000002nd");
}
