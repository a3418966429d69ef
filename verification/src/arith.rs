use vstd::prelude::*;

use crate::errors::CustomError;

verus! {

/// Checked addition: fails explicitly instead of wrapping.
pub fn checked_add(a: u64, b: u64) -> (r: Result<u64, CustomError>)
    ensures
        a + b <= u64::MAX ==> r == Ok::<u64, CustomError>((a + b) as u64),
        a + b > u64::MAX ==> r == Err::<u64, CustomError>(CustomError::ArithmeticOverflow),
{
    match a.checked_add(b) {
        Some(v) => Ok(v),
        None => Err(CustomError::ArithmeticOverflow),
    }
}

/// Checked subtraction: fails explicitly instead of wrapping below zero.
pub fn checked_sub(a: u64, b: u64) -> (r: Result<u64, CustomError>)
    ensures
        b <= a ==> r == Ok::<u64, CustomError>((a - b) as u64),
        b > a ==> r == Err::<u64, CustomError>(CustomError::ArithmeticUnderflow),
{
    match a.checked_sub(b) {
        Some(v) => Ok(v),
        None => Err(CustomError::ArithmeticUnderflow),
    }
}

/// Checked multiplication: fails explicitly instead of wrapping.
pub fn checked_mul(a: u64, b: u64) -> (r: Result<u64, CustomError>)
    ensures
        a * b <= u64::MAX ==> r == Ok::<u64, CustomError>((a * b) as u64),
        a * b > u64::MAX ==> r == Err::<u64, CustomError>(CustomError::ArithmeticOverflow),
{
    match a.checked_mul(b) {
        Some(v) => Ok(v),
        None => Err(CustomError::ArithmeticOverflow),
    }
}

/// Checked division: fails explicitly on a zero divisor.
pub fn checked_div(a: u64, b: u64) -> (r: Result<u64, CustomError>)
    ensures
        b != 0 ==> r == Ok::<u64, CustomError>((a as int / b as int) as u64),
        b == 0 ==> r == Err::<u64, CustomError>(CustomError::DivisionByZero),
{
    if b == 0 {
        Err(CustomError::DivisionByZero)
    } else {
        Ok(a / b)
    }
}

} // verus!
