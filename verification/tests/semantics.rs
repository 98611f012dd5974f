use nutype_core::construct::{
    construct_integer, construct_integer_unchecked, construct_string, construct_string_unchecked,
    IntValue, IntViolation, StringViolation,
};
use nutype_core::models::{Guard, IntLiteral, Sanitizer, Validator};

fn int_lit(text: &str, neg: bool, mag: u128) -> IntLiteral {
    IntLiteral { text: text.to_string(), neg, mag }
}

fn pos(mag: u128) -> IntValue {
    IntValue { neg: false, mag }
}

fn negv(mag: u128) -> IntValue {
    IntValue { neg: true, mag }
}

#[test]
fn positive_guard_accepts_five_and_rejects_minus_one() {
    let guard = Guard {
        sanitizers: vec![],
        validators: vec![Validator::Min(int_lit("1", false, 1))],
    };
    assert_eq!(construct_integer(&guard, pos(5)), Ok(pos(5)));
    assert_eq!(construct_integer(&guard, negv(1)), Err(IntViolation::TooSmall));
}

#[test]
fn integer_bounds_check_in_declaration_order() {
    let guard = Guard {
        sanitizers: vec![],
        validators: vec![
            Validator::Min(int_lit("-10", true, 10)),
            Validator::Max(int_lit("10", false, 10)),
        ],
    };
    assert_eq!(construct_integer(&guard, pos(10)), Ok(pos(10)));
    assert_eq!(construct_integer(&guard, pos(11)), Err(IntViolation::TooBig));
    assert_eq!(construct_integer(&guard, negv(11)), Err(IntViolation::TooSmall));
}

#[test]
fn unchecked_integer_construction_bypasses_the_guard() {
    let guard = Guard {
        sanitizers: vec![],
        validators: vec![Validator::Min(int_lit("1", false, 1))],
    };
    // The guard would reject -7; the unchecked constructor stores it
    // verbatim.
    assert_eq!(construct_integer_unchecked(&guard, negv(7)), negv(7));
}

#[test]
fn trim_then_not_empty_rejects_blank_input() {
    let guard = Guard {
        sanitizers: vec![Sanitizer::Trim],
        validators: vec![Validator::NotEmpty],
    };
    assert_eq!(
        construct_string(&guard, "  ".to_string()),
        Err(StringViolation::Empty)
    );
    assert_eq!(
        construct_string(&guard, "  hi  ".to_string()),
        Ok("hi".to_string())
    );
}

#[test]
fn sanitizers_run_in_declaration_order() {
    let guard = Guard {
        sanitizers: vec![Sanitizer::Trim, Sanitizer::Lowercase],
        validators: vec![],
    };
    assert_eq!(
        construct_string(&guard, " MiXeD\t".to_string()),
        Ok("mixed".to_string())
    );
    let shout = Guard {
        sanitizers: vec![Sanitizer::Uppercase],
        validators: vec![],
    };
    assert_eq!(
        construct_string(&shout, "loud!".to_string()),
        Ok("LOUD!".to_string())
    );
}

#[test]
fn length_validators_measure_the_sanitized_value() {
    let guard = Guard {
        sanitizers: vec![Sanitizer::Trim],
        validators: vec![Validator::MinLen(3), Validator::MaxLen(5)],
    };
    assert_eq!(construct_string(&guard, " abc ".to_string()), Ok("abc".to_string()));
    assert_eq!(
        construct_string(&guard, " ab ".to_string()),
        Err(StringViolation::TooShort)
    );
    assert_eq!(
        construct_string(&guard, "abcdef".to_string()),
        Err(StringViolation::TooLong)
    );
}

#[test]
fn first_failing_validator_names_the_error() {
    let guard = Guard {
        sanitizers: vec![],
        validators: vec![Validator::MinLen(3), Validator::MaxLen(1)],
    };
    // A two-character value fails both bounds; the first declared
    // validator names the error.
    assert_eq!(
        construct_string(&guard, "xx".to_string()),
        Err(StringViolation::TooShort)
    );
}

#[test]
fn unchecked_string_construction_bypasses_the_guard() {
    let guard = Guard {
        sanitizers: vec![Sanitizer::Trim, Sanitizer::Uppercase],
        validators: vec![Validator::NotEmpty],
    };
    assert_eq!(construct_string_unchecked(&guard, "  ".to_string()), "  ".to_string());
}

#[test]
fn empty_guard_accepts_everything_unchanged() {
    let guard = Guard { sanitizers: vec![], validators: vec![] };
    assert_eq!(construct_string(&guard, "".to_string()), Ok("".to_string()));
    assert_eq!(construct_integer(&guard, negv(123)), Ok(negv(123)));
}
