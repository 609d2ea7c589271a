use core::ops::ControlFlow;
use strict_result::FromResidual;
use strict_result::Strict;
use strict_result::StrictResult;

#[derive(Debug, PartialEq)]
struct ParseError(u32);

#[derive(Debug, PartialEq)]
struct RangeError(i64);

#[derive(Debug, PartialEq)]
enum InputError {
    Parse(ParseError),
    Range(RangeError),
}

impl From<ParseError> for InputError {
    fn from(e: ParseError) -> InputError {
        InputError::Parse(e)
    }
}

impl From<RangeError> for InputError {
    fn from(e: RangeError) -> InputError {
        InputError::Range(e)
    }
}

fn passthrough<T>(f: impl FnOnce() -> T) -> T {
    f()
}

fn parse(digit: char) -> Result<i64, ParseError> {
    match digit.to_digit(10) {
        Some(d) => Ok(i64::from(d)),
        None => Err(ParseError(u32::from(digit))),
    }
}

fn in_range(n: i64) -> Result<i64, RangeError> {
    if n < 8 {
        Ok(n)
    } else {
        Err(RangeError(n))
    }
}

fn parse_twice(first: char, second: char, steps: &mut Vec<&'static str>) -> Result<i64, ParseError> {
    steps.push("first");
    let a = match parse(first).strict().branch() {
        ControlFlow::Continue(v) => v,
        ControlFlow::Break(res) => return FromResidual::from_residual(res),
    };
    steps.push("second");
    let b = match parse(second).strict().branch() {
        ControlFlow::Continue(v) => v,
        ControlFlow::Break(res) => return FromResidual::from_residual(res),
    };
    steps.push("sum");
    Ok(a + b)
}

fn parse_in_range(digit: char) -> Result<i64, InputError> {
    let n = match parse(digit).map_err(InputError::from).strict().branch() {
        ControlFlow::Continue(v) => v,
        ControlFlow::Break(res) => return FromResidual::from_residual(res),
    };
    let n = match in_range(n).map_err(InputError::from).strict().branch() {
        ControlFlow::Continue(v) => v,
        ControlFlow::Break(res) => return FromResidual::from_residual(res),
    };
    Ok(n * 10)
}

fn parse_in_range_strict(digit: char) -> StrictResult<i64, InputError> {
    let n = match parse(digit) {
        Ok(v) => v,
        Err(e) => return FromResidual::from_residual(Err(e)),
    };
    let n = match in_range(n) {
        Ok(v) => v,
        Err(e) => return FromResidual::from_residual(Err(e)),
    };
    StrictResult::from_output(n * 10)
}

fn through_closure(digit: char) -> Result<i64, ParseError> {
    let n = match passthrough(|| parse(digit)).strict().branch() {
        ControlFlow::Continue(v) => v,
        ControlFlow::Break(res) => return FromResidual::from_residual(res),
    };
    Ok(n + 1)
}

#[test]
fn same_failure_type_runs_to_the_end_on_success() {
    let mut steps = Vec::new();
    assert_eq!(parse_twice('3', '4', &mut steps), Ok(7));
    assert_eq!(steps, vec!["first", "second", "sum"]);
}

#[test]
fn same_failure_type_leaves_at_the_first_failure() {
    let mut steps = Vec::new();
    assert_eq!(parse_twice('x', '4', &mut steps), Err(ParseError(u32::from('x'))));
    assert_eq!(steps, vec!["first"]);
}

#[test]
fn same_failure_type_leaves_at_the_second_failure() {
    let mut steps = Vec::new();
    assert_eq!(parse_twice('3', 'y', &mut steps), Err(ParseError(u32::from('y'))));
    assert_eq!(steps, vec!["first", "second"]);
}

#[test]
fn two_failure_types_converted_by_hand_succeed() {
    assert_eq!(parse_in_range('7'), Ok(70));
}

#[test]
fn two_failure_types_converted_by_hand_fail_with_the_first() {
    assert_eq!(
        parse_in_range('z'),
        Err(InputError::Parse(ParseError(u32::from('z'))))
    );
}

#[test]
fn two_failure_types_converted_by_hand_fail_with_the_second() {
    assert_eq!(parse_in_range('9'), Err(InputError::Range(RangeError(9))));
}

#[test]
fn plain_failures_widen_when_they_enter_a_strict_result() {
    assert_eq!(parse_in_range_strict('2').loose(), Ok(20));
    assert_eq!(
        parse_in_range_strict('q').loose(),
        Err(InputError::Parse(ParseError(u32::from('q'))))
    );
    assert_eq!(
        parse_in_range_strict('8').loose(),
        Err(InputError::Range(RangeError(8)))
    );
}

#[test]
fn strict_result_of_a_generic_call_propagates() {
    assert_eq!(through_closure('5'), Ok(6));
    assert_eq!(through_closure('-'), Err(ParseError(u32::from('-'))));
}
