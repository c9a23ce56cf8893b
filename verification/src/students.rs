//! What the enrolment of a batch of students computes: their numbers, their representative
//! ids and their mail addresses.

use vstd::prelude::*;
use vstd::string::{StrSliceExecFns, StringExecFns};

use crate::constants::AD_BE_YEAR_DIFFERENCE;
use crate::decimal::{
    digit_of,
    lemma_digits_value_grows,
    spec_decimal,
    spec_digits_value,
    spec_signed_decimal,
    write_decimal,
    write_signed_decimal,
};
use crate::errors::HttpError;

verus! {

/// The number at which the students of one major and one year run out.
pub const STUDENT_INDEX_LIMIT: usize = 10000;

/// A natural number in decimal, filled up with zeros on the left to four characters.
pub open spec fn spec_four_digits(n: nat) -> Seq<char> {
    if n < 10 {
        seq!['0', '0', '0'] + spec_decimal(n)
    } else if n < 100 {
        seq!['0', '0'] + spec_decimal(n)
    } else if n < 1000 {
        seq!['0'] + spec_decimal(n)
    } else {
        spec_decimal(n)
    }
}

/// The number that a text stands for as an unsigned number is read: decimal digits, with
/// a plus sign before them or none.
pub open spec fn spec_unsigned_value(text: Seq<char>) -> Option<nat> {
    if text.len() > 0 && text[0] == '+' {
        spec_digits_value(text.skip(1))
    } else {
        spec_digits_value(text)
    }
}

/// A number that was read, or zero where none was read or none that fits.
pub open spec fn spec_or_zero(value: Option<nat>) -> nat {
    match value {
        Some(n) => if n <= usize::MAX {
            n
        } else {
            0
        },
        None => 0,
    }
}

/// The number of the student who was enrolled last: what follows the first four characters
/// of the representative id, read as a number; zero where that is no number, or none that
/// fits.
pub open spec fn spec_latest_student_number(representative_id: Seq<char>) -> nat {
    if representative_id.len() < 4 {
        0
    } else {
        spec_or_zero(spec_unsigned_value(representative_id.skip(4)))
    }
}

/// The year of the Buddhist era that a year Anno Domini is.
pub open spec fn spec_buddhist_era_year(anno_domini: int) -> int {
    anno_domini + AD_BE_YEAR_DIFFERENCE
}

/// The representative id of a student: the year, the id of the major, and the number of the
/// student in four digits at least.
pub open spec fn spec_student_representative_id(
    year: int,
    major_representative_id: Seq<char>,
    index: nat,
) -> Seq<char> {
    spec_signed_decimal(year) + major_representative_id + spec_four_digits(index)
}

/// The mail address of a student: the first name, the first letter of the last name (an `s`
/// where there is none), the year, at `gmail.com`.
pub open spec fn spec_student_email(first_name: Seq<char>, last_name: Seq<char>, year: int) -> Seq<
    char,
> {
    first_name + (if last_name.len() > 0 {
        last_name.subrange(0, 1)
    } else {
        seq!['s']
    }) + spec_signed_decimal(year) + "@gmail.com"@
}

/// A batch of students to enrol must hold one student at least.
pub fn check_batch(students: usize) -> (r: Result<(), HttpError>)
    ensures
        match r {
            Ok(_) => students > 0,
            Err(e) => e is NoData && students == 0,
        },
{
    if students == 0 {
        Err(HttpError::NoData)
    } else {
        Ok(())
    }
}

/// The year of the Buddhist era that a year Anno Domini is, where it fits.
pub fn buddhist_era_year(anno_domini: i32) -> (r: Result<i32, HttpError>)
    ensures
        match r {
            Ok(year) => year == spec_buddhist_era_year(anno_domini as int),
            Err(e) => e is InternalServerError && spec_buddhist_era_year(anno_domini as int)
                > i32::MAX,
        },
{
    if anno_domini > i32::MAX - AD_BE_YEAR_DIFFERENCE as i32 {
        Err(HttpError::internal("the academic year is out of range"))
    } else {
        Ok(anno_domini + AD_BE_YEAR_DIFFERENCE as i32)
    }
}

/// The number of a student of a batch: the number of the student enrolled last, and the
/// place in the batch on top. A student whose number is the limit cannot be enrolled, nor
/// one whose number does not fit.
pub fn student_index(latest: usize, position: usize) -> (r: Result<usize, HttpError>)
    ensures
        match r {
            Ok(index) => index == latest + position && index != STUDENT_INDEX_LIMIT,
            Err(e) => e is InternalServerError && (latest + position == STUDENT_INDEX_LIMIT
                || latest + position > usize::MAX),
        },
{
    match latest.checked_add(position) {
        Some(index) => if index == STUDENT_INDEX_LIMIT {
            Err(HttpError::internal("new student index overflow"))
        } else {
            Ok(index)
        },
        None => Err(HttpError::internal("new student index overflow")),
    }
}

/// The number of the student who was enrolled last, read from the representative id.
pub fn latest_student_number(representative_id: &str) -> (r: usize)
    ensures
        r == spec_latest_student_number(representative_id@),
{
    let length = representative_id.unicode_len();
    if length < 4 {
        return 0;
    }
    let mut start: usize = 4;
    if length > 4 && representative_id.get_char(4) == '+' {
        start = 5;
    }
    let ghost digits = representative_id@.skip(start as int);
    proof {
        let rest = representative_id@.skip(4);
        if start == 5 {
            assert(rest[0] == '+');
            assert(rest.skip(1) =~= digits);
        } else {
            assert(rest.len() > 0 ==> rest[0] != '+');
        }
        assert(spec_unsigned_value(rest) == spec_digits_value(digits));
    }
    if start == length {
        return 0;
    }
    let mut value: usize = 0;
    let mut i: usize = start;
    while i < length
        invariant
            start <= i <= length,
            start < length,
            length == representative_id@.len(),
            digits == representative_id@.skip(start as int),
            spec_latest_student_number(representative_id@) == spec_or_zero(
                spec_digits_value(digits),
            ),
            i > start ==> spec_digits_value(digits.take(i - start)) == Some(value as nat),
        decreases length - i,
    {
        let c = representative_id.get_char(i);
        let ghost upto = digits.take(i - start + 1);
        proof {
            assert(upto.last() == c);
            assert(upto.drop_last() =~= digits.take(i - start));
        }
        let digit = match digit_of(c) {
            Some(d) => d as usize,
            None => {
                proof {
                    assert(spec_digits_value(upto) is None);
                    if spec_digits_value(digits) is Some {
                        lemma_digits_value_grows(digits, i - start + 1);
                    }
                }
                return 0;
            },
        };
        let next = if i == start {
            Some(digit)
        } else {
            match value.checked_mul(10) {
                Some(tens) => tens.checked_add(digit),
                None => None,
            }
        };
        match next {
            Some(n) => {
                value = n;
            },
            None => {
                proof {
                    assert(spec_digits_value(upto) == Some((value * 10 + digit) as nat));
                    if spec_digits_value(digits) is Some {
                        lemma_digits_value_grows(digits, i - start + 1);
                    }
                }
                return 0;
            },
        }
        i += 1;
    }
    assert(digits.take(length - start) =~= digits);
    value
}

/// The representative id of a student.
pub fn student_representative_id(year: i32, major_representative_id: &str, index: usize) -> (r:
    String)
    ensures
        r@ == spec_student_representative_id(year as int, major_representative_id@, index as nat),
{
    let mut out = String::new();
    write_signed_decimal(&mut out, year as i128);
    out.append(major_representative_id);
    proof {
        reveal_strlit("000");
        reveal_strlit("00");
        reveal_strlit("0");
    }
    let ghost before = out@;
    if index < 10 {
        out.append("000");
        assert(out@ =~= before + seq!['0', '0', '0']);
    } else if index < 100 {
        out.append("00");
        assert(out@ =~= before + seq!['0', '0']);
    } else if index < 1000 {
        out.append("0");
        assert(out@ =~= before + seq!['0']);
    }
    write_decimal(&mut out, index as u128);
    assert(out@ =~= spec_student_representative_id(
        year as int,
        major_representative_id@,
        index as nat,
    ));
    out
}

/// The mail address of a student.
pub fn student_email(first_name: &str, last_name: &str, year: i32) -> (r: String)
    ensures
        r@ == spec_student_email(first_name@, last_name@, year as int),
{
    let mut out = String::new();
    out.append(first_name);
    if last_name.unicode_len() > 0 {
        out.append(last_name.substring_char(0, 1));
    } else {
        proof {
            reveal_strlit("s");
        }
        out.append("s");
        assert(out@ =~= first_name@ + seq!['s']);
    }
    write_signed_decimal(&mut out, year as i128);
    out.append("@gmail.com");
    assert(out@ =~= spec_student_email(first_name@, last_name@, year as int));
    out
}

} // verus!
