//! Expectations on values whose failures describe themselves.
//!
//! An implementation of `validate` is mostly a list of expectations: this field is less than
//! that one, this predicate holds of these arguments. Each function here tests one expectation
//! and, where it fails, reports an [`InvariantViolation`] that shows the expressions as they
//! were written, the values they had, and the place in the source.
//!
//! A failed comparison reads `expect: a(2) < b(2) at src/log.rs:17`, and a failed predicate
//! `expect to be true: between(lo(6), x(5), hi(10)) at src/log.rs:21`.
//!
//! The functions are made to be called from one-line macros, which capture the text of an
//! expression with `stringify!` and the place of the call with `file!` and `line!`: that is
//! why the texts and the place are parameters. The comparisons take `u64` operands and write
//! them in decimal; of any other type, a caller compares for itself and hands the values as
//! text to [`comparison_failure`].

use vstd::prelude::*;
use vstd::string::StringExecFns;

use crate::violation::InvariantViolation;

verus! {

/// The character of a decimal digit.
pub open spec fn digit(d: nat) -> char
    recommends
        d < 10,
{
    if d == 0 {
        '0'
    } else if d == 1 {
        '1'
    } else if d == 2 {
        '2'
    } else if d == 3 {
        '3'
    } else if d == 4 {
        '4'
    } else if d == 5 {
        '5'
    } else if d == 6 {
        '6'
    } else if d == 7 {
        '7'
    } else if d == 8 {
        '8'
    } else {
        '9'
    }
}

/// A number in decimal notation, without leading zeros.
pub open spec fn decimal(n: nat) -> Seq<char>
    decreases n,
{
    if n < 10 {
        seq![digit(n)]
    } else {
        decimal(n / 10).push(digit(n % 10))
    }
}

/// An expression as it was written, followed by its value in parentheses.
pub open spec fn operand_text(expr: Seq<char>, value: Seq<char>) -> Seq<char> {
    expr + "("@ + value + ")"@
}

/// The description of a comparison that did not hold.
pub open spec fn comparison_text(
    left_expr: Seq<char>,
    left_value: Seq<char>,
    symbol: Seq<char>,
    right_expr: Seq<char>,
    right_value: Seq<char>,
    file: Seq<char>,
    line: nat,
) -> Seq<char> {
    "expect: "@ + operand_text(left_expr, left_value) + " "@ + symbol + " "@ + operand_text(
        right_expr,
        right_value,
    ) + " at "@ + file + ":"@ + decimal(line)
}

/// An expression as it was written, and the value it had, as text.
pub struct Operand {
    pub expr: String,
    pub value: String,
}

impl Operand {
    /// The operand written `expr` whose value reads `value`.
    pub fn new(expr: &str, value: &str) -> (operand: Self)
        ensures
            operand.expr@ == expr@,
            operand.value@ == value@,
    {
        Operand { expr: String::from_str(expr), value: String::from_str(value) }
    }
}

/// The arguments of a call, each with its value, separated by `", "`.
pub open spec fn arguments_text(args: Seq<Operand>) -> Seq<char>
    decreases args.len(),
{
    if args.len() == 0 {
        Seq::empty()
    } else if args.len() == 1 {
        operand_text(args[0].expr@, args[0].value@)
    } else {
        arguments_text(args.drop_last()) + ", "@ + operand_text(
            args.last().expr@,
            args.last().value@,
        )
    }
}

/// The description of a predicate that did not hold of its arguments.
pub open spec fn call_text(call: Seq<char>, args: Seq<Operand>, file: Seq<char>, line: nat) -> Seq<
    char,
> {
    "expect to be true: "@ + call + "("@ + arguments_text(args) + ")"@ + " at "@ + file + ":"@
        + decimal(line)
}

fn digit_str(d: u64) -> (text: &'static str)
    requires
        d < 10,
    ensures
        text@ == seq![digit(d as nat)],
{
    proof {
        reveal_strlit("0");
        reveal_strlit("1");
        reveal_strlit("2");
        reveal_strlit("3");
        reveal_strlit("4");
        reveal_strlit("5");
        reveal_strlit("6");
        reveal_strlit("7");
        reveal_strlit("8");
        reveal_strlit("9");
    }
    let text: &'static str = if d == 0 {
        "0"
    } else if d == 1 {
        "1"
    } else if d == 2 {
        "2"
    } else if d == 3 {
        "3"
    } else if d == 4 {
        "4"
    } else if d == 5 {
        "5"
    } else if d == 6 {
        "6"
    } else if d == 7 {
        "7"
    } else if d == 8 {
        "8"
    } else {
        "9"
    };
    assert(text@ =~= seq![digit(d as nat)]);
    text
}

fn push_decimal(text: &mut String, n: u64)
    ensures
        final(text)@ == old(text)@ + decimal(n as nat),
    decreases n,
{
    if n >= 10 {
        push_decimal(text, n / 10);
    }
    text.append(digit_str(n % 10));
    assert(text@ =~= old(text)@ + decimal(n as nat));
}

/// Writes a number in decimal notation.
pub fn decimal_string(n: u64) -> (text: String)
    ensures
        text@ == decimal(n as nat),
{
    let mut text = String::new();
    push_decimal(&mut text, n);
    assert(text@ =~= decimal(n as nat));
    text
}

fn push_operand(text: &mut String, expr: &str, value: &str)
    ensures
        final(text)@ == old(text)@ + operand_text(expr@, value@),
{
    text.append(expr);
    text.append("(");
    text.append(value);
    text.append(")");
    assert(text@ =~= old(text)@ + operand_text(expr@, value@));
}

/// The violation that a failed comparison reports.
pub fn comparison_failure(
    left_expr: &str,
    left_value: &str,
    symbol: &str,
    right_expr: &str,
    right_value: &str,
    file: &str,
    line: u32,
) -> (violation: InvariantViolation)
    ensures
        violation@ == comparison_text(
            left_expr@,
            left_value@,
            symbol@,
            right_expr@,
            right_value@,
            file@,
            line as nat,
        ),
{
    let mut text = String::from_str("expect: ");
    push_operand(&mut text, left_expr, left_value);
    text.append(" ");
    text.append(symbol);
    text.append(" ");
    push_operand(&mut text, right_expr, right_value);
    text.append(" at ");
    text.append(file);
    text.append(":");
    push_decimal(&mut text, line as u64);
    InvariantViolation::new(text)
}

fn integer_failure(
    left_expr: &str,
    left: u64,
    symbol: &str,
    right_expr: &str,
    right: u64,
    file: &str,
    line: u32,
) -> (violation: InvariantViolation)
    ensures
        violation@ == comparison_text(
            left_expr@,
            decimal(left as nat),
            symbol@,
            right_expr@,
            decimal(right as nat),
            file@,
            line as nat,
        ),
{
    let left_value = decimal_string(left);
    let right_value = decimal_string(right);
    comparison_failure(
        left_expr,
        left_value.as_str(),
        symbol,
        right_expr,
        right_value.as_str(),
        file,
        line,
    )
}

/// The violation that a predicate reports which did not hold of its arguments.
pub fn call_failure(call: &str, args: &Vec<Operand>, file: &str, line: u32) -> (violation:
    InvariantViolation)
    ensures
        violation@ == call_text(call@, args@, file@, line as nat),
{
    let mut text = String::from_str("expect to be true: ");
    text.append(call);
    text.append("(");
    let ghost head = text@;
    let mut i: usize = 0;
    while i < args.len()
        invariant
            i <= args.len(),
            text@ == head + arguments_text(args@.take(i as int)),
        decreases args.len() - i,
    {
        let ghost before = text@;
        if i > 0 {
            text.append(", ");
        }
        push_operand(&mut text, args[i].expr.as_str(), args[i].value.as_str());
        proof {
            let next = args@.take(i + 1);
            assert(next.drop_last() =~= args@.take(i as int));
            assert(next.last() == args@[i as int]);
            assert(text@ =~= head + arguments_text(next));
        }
        i += 1;
    }
    assert(args@.take(i as int) =~= args@);
    text.append(")");
    text.append(" at ");
    text.append(file);
    text.append(":");
    push_decimal(&mut text, line as u64);
    InvariantViolation::new(text)
}

/// The violation whose description is `message`.
pub fn make_err(message: &str) -> (violation: InvariantViolation)
    ensures
        violation@ == message@,
{
    InvariantViolation::new(String::from_str(message))
}

/// Expects `left < right`.
pub fn less(
    left_expr: &str,
    left: u64,
    right_expr: &str,
    right: u64,
    file: &str,
    line: u32,
) -> (outcome: Result<(), InvariantViolation>)
    ensures
        outcome is Ok <==> left < right,
        outcome matches Err(violation) ==> violation@ == comparison_text(
            left_expr@,
            decimal(left as nat),
            "<"@,
            right_expr@,
            decimal(right as nat),
            file@,
            line as nat,
        ),
{
    if left < right {
        Ok(())
    } else {
        Err(integer_failure(left_expr, left, "<", right_expr, right, file, line))
    }
}

/// Expects `left > right`.
pub fn greater(
    left_expr: &str,
    left: u64,
    right_expr: &str,
    right: u64,
    file: &str,
    line: u32,
) -> (outcome: Result<(), InvariantViolation>)
    ensures
        outcome is Ok <==> left > right,
        outcome matches Err(violation) ==> violation@ == comparison_text(
            left_expr@,
            decimal(left as nat),
            ">"@,
            right_expr@,
            decimal(right as nat),
            file@,
            line as nat,
        ),
{
    if left > right {
        Ok(())
    } else {
        Err(integer_failure(left_expr, left, ">", right_expr, right, file, line))
    }
}

/// Expects `left <= right`.
pub fn less_equal(
    left_expr: &str,
    left: u64,
    right_expr: &str,
    right: u64,
    file: &str,
    line: u32,
) -> (outcome: Result<(), InvariantViolation>)
    ensures
        outcome is Ok <==> left <= right,
        outcome matches Err(violation) ==> violation@ == comparison_text(
            left_expr@,
            decimal(left as nat),
            "<="@,
            right_expr@,
            decimal(right as nat),
            file@,
            line as nat,
        ),
{
    if left <= right {
        Ok(())
    } else {
        Err(integer_failure(left_expr, left, "<=", right_expr, right, file, line))
    }
}

/// Expects `left >= right`.
pub fn greater_equal(
    left_expr: &str,
    left: u64,
    right_expr: &str,
    right: u64,
    file: &str,
    line: u32,
) -> (outcome: Result<(), InvariantViolation>)
    ensures
        outcome is Ok <==> left >= right,
        outcome matches Err(violation) ==> violation@ == comparison_text(
            left_expr@,
            decimal(left as nat),
            ">="@,
            right_expr@,
            decimal(right as nat),
            file@,
            line as nat,
        ),
{
    if left >= right {
        Ok(())
    } else {
        Err(integer_failure(left_expr, left, ">=", right_expr, right, file, line))
    }
}

/// Expects `left == right`.
pub fn equal(
    left_expr: &str,
    left: u64,
    right_expr: &str,
    right: u64,
    file: &str,
    line: u32,
) -> (outcome: Result<(), InvariantViolation>)
    ensures
        outcome is Ok <==> left == right,
        outcome matches Err(violation) ==> violation@ == comparison_text(
            left_expr@,
            decimal(left as nat),
            "=="@,
            right_expr@,
            decimal(right as nat),
            file@,
            line as nat,
        ),
{
    if left == right {
        Ok(())
    } else {
        Err(integer_failure(left_expr, left, "==", right_expr, right, file, line))
    }
}

/// Expects a predicate to hold. `holds` is what the call `call(args...)` returned.
pub fn be_true(holds: bool, call: &str, args: &Vec<Operand>, file: &str, line: u32) -> (outcome:
    Result<(), InvariantViolation>)
    ensures
        outcome is Ok <==> holds,
        outcome matches Err(violation) ==> violation@ == call_text(
            call@,
            args@,
            file@,
            line as nat,
        ),
{
    if holds {
        Ok(())
    } else {
        Err(call_failure(call, args, file, line))
    }
}

} // verus!
