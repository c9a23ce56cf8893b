use ger::decimal::{decimal, digits_exceed, signed_decimal, Bigint};
use ger::errors::HttpError;
use ger::students::{
    buddhist_era_year, check_batch, latest_student_number, student_email, student_index,
    student_representative_id,
};

#[test]
fn empty_batch_is_no_data() {
    assert!(matches!(check_batch(0), Err(HttpError::NoData)));
    assert!(check_batch(1).is_ok());
    assert!(check_batch(500).is_ok());
}

#[test]
fn year_of_the_buddhist_era() {
    assert_eq!(buddhist_era_year(2023).unwrap(), 2566);
    assert_eq!(buddhist_era_year(0).unwrap(), 543);
    assert_eq!(buddhist_era_year(-543).unwrap(), 0);
    assert_eq!(buddhist_era_year(i32::MAX - 543).unwrap(), i32::MAX);
    assert!(matches!(
        buddhist_era_year(i32::MAX - 542),
        Err(HttpError::InternalServerError { .. })
    ));
    assert_eq!(buddhist_era_year(i32::MIN).unwrap(), i32::MIN + 543);
}

#[test]
fn numbers_are_written_in_decimal() {
    assert_eq!(decimal(0), "0");
    assert_eq!(decimal(7), "7");
    assert_eq!(decimal(10), "10");
    assert_eq!(decimal(2566), "2566");
    assert_eq!(decimal(u64::MAX), "18446744073709551615");
    assert_eq!(signed_decimal(0), "0");
    assert_eq!(signed_decimal(-1), "-1");
    assert_eq!(signed_decimal(-120), "-120");
    assert_eq!(signed_decimal(i128::MAX), "170141183460469231731687303715884105727");
    assert_eq!(signed_decimal(i128::MIN), "-170141183460469231731687303715884105728");
}

#[test]
fn big_numbers_go_over_the_wire_as_text() {
    assert_eq!(30i64.serialize_bigint_to_string(), "30");
    assert_eq!((-30i64).serialize_bigint_to_string(), "-30");
    assert_eq!(i64::MIN.serialize_bigint_to_string(), "-9223372036854775808");
    assert_eq!(u64::MAX.serialize_bigint_to_string(), "18446744073709551615");
    assert_eq!(u128::MAX.serialize_bigint_to_string(), "340282366920938463463374607431768211455");
    assert_eq!(0u128.serialize_bigint_to_string(), "0");
    assert_eq!(i128::MIN.serialize_bigint_to_string(), "-170141183460469231731687303715884105728");
}

#[test]
fn representative_id_of_a_student() {
    assert_eq!(student_representative_id(2566, "31", 1), "2566310001");
    assert_eq!(student_representative_id(2566, "31", 0), "2566310000");
    assert_eq!(student_representative_id(2566, "31", 42), "2566310042");
    assert_eq!(student_representative_id(2566, "31", 999), "2566310999");
    assert_eq!(student_representative_id(2566, "31", 1000), "2566311000");
    assert_eq!(student_representative_id(2566, "31", 9999), "2566319999");
    assert_eq!(student_representative_id(2566, "31", 123456), "256631123456");
    assert_eq!(student_representative_id(2566, "", 5), "25660005");
    assert_eq!(student_representative_id(-5, "x", 5), "-5x0005");
    assert_eq!(student_representative_id(i32::MIN, "", 10), "-21474836480010");
}

#[test]
fn mail_address_of_a_student() {
    assert_eq!(student_email("arya", "stark", 2566), "aryas2566@gmail.com");
    assert_eq!(student_email("arya", "", 2566), "aryas2566@gmail.com");
    assert_eq!(student_email("jon", "Snow", 2567), "jonS2567@gmail.com");
    assert_eq!(student_email("", "x", 0), "x0@gmail.com");
    assert_eq!(student_email("zo\u{e9}", "\u{e9}mile", 2566), "zo\u{e9}\u{e9}2566@gmail.com");
}

#[test]
fn number_of_the_student_enrolled_last() {
    assert_eq!(latest_student_number("25660001"), 1);
    assert_eq!(latest_student_number("25660042"), 42);
    assert_eq!(latest_student_number("2566310001"), 310001);
    assert_eq!(latest_student_number("2566+17"), 17);
    assert_eq!(latest_student_number("2566"), 0);
    assert_eq!(latest_student_number("256"), 0);
    assert_eq!(latest_student_number(""), 0);
    assert_eq!(latest_student_number("2566x1"), 0);
    assert_eq!(latest_student_number("25661x"), 0);
    assert_eq!(latest_student_number("2566-1"), 0);
    assert_eq!(latest_student_number("2566+"), 0);
    assert_eq!(latest_student_number("2566++1"), 0);
    assert_eq!(latest_student_number("2566 1"), 0);
    assert_eq!(latest_student_number("256618446744073709551615"), 18446744073709551615);
    assert_eq!(latest_student_number("256618446744073709551616"), 0);
    assert_eq!(latest_student_number("2566184467440737095516150"), 0);
    assert_eq!(latest_student_number("2566000000000000000000000000009"), 9);
}

#[test]
fn number_of_a_student_of_a_batch() {
    assert_eq!(student_index(0, 0).unwrap(), 0);
    assert_eq!(student_index(41, 1).unwrap(), 42);
    assert_eq!(student_index(9998, 1).unwrap(), 9999);
    assert!(matches!(student_index(9999, 1), Err(HttpError::InternalServerError { .. })));
    assert!(matches!(student_index(10000, 0), Err(HttpError::InternalServerError { .. })));
    assert_eq!(student_index(10000, 1).unwrap(), 10001);
    assert!(matches!(student_index(usize::MAX, 1), Err(HttpError::InternalServerError { .. })));
}

#[test]
fn digits_are_held_against_a_bound() {
    assert!(!digits_exceed("", 0));
    assert!(!digits_exceed("0", 0));
    assert!(digits_exceed("1", 0));
    assert!(!digits_exceed("536870911", 536870911));
    assert!(digits_exceed("536870912", 536870911));
    assert!(digits_exceed("0536870912", 536870911));
    assert!(!digits_exceed("00000000000000000000007", 7));
    assert!(digits_exceed("00000000000000000000008", 7));
    assert!(digits_exceed("99999999999999999999999999999999", u32::MAX));
    assert!(!digits_exceed("4294967295", u32::MAX));
    assert!(digits_exceed("4294967296", u32::MAX));
    assert!(!digits_exceed("12a", 0));
    assert!(!digits_exceed("+12", 0));
    assert!(!digits_exceed(" 12", 0));
}
