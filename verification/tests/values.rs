use rinha_interpreter::ast::Location;
use rinha_interpreter::interpreter::{
    divison_by_zero, invalid_comparison, invalid_numeric_op, RuntimeError, RuntimeErrorKind, Value,
};

fn at(start: i32) -> Location {
    Location { start, end: start + 3, filename: String::from("main.rinha") }
}

fn number(n: i32) -> Value {
    Value::Int(n)
}

fn text(s: &str) -> Value {
    Value::Str(String::from(s))
}

fn pair(a: Value, b: Value) -> Value {
    Value::Tuple((Box::new(a), Box::new(b)))
}

fn shown(result: Result<Value, RuntimeError>) -> String {
    match result {
        Ok(value) => value.to_string(),
        Err(error) => panic!("unexpected error: {}", error.to_string()),
    }
}

fn failure(result: Result<Value, RuntimeError>) -> RuntimeError {
    match result {
        Ok(value) => panic!("unexpected value: {}", value.to_string()),
        Err(error) => error,
    }
}

#[test]
fn display_of_each_kind() {
    assert_eq!(number(42).to_string(), "42");
    assert_eq!(number(-7).to_string(), "-7");
    assert_eq!(number(0).to_string(), "0");
    assert_eq!(number(i32::MIN).to_string(), "-2147483648");
    assert_eq!(number(i32::MAX).to_string(), "2147483647");
    assert_eq!(Value::Bool(true).to_string(), "true");
    assert_eq!(Value::Bool(false).to_string(), "false");
    assert_eq!(text("a \"b\"").to_string(), "a \"b\"");
    assert_eq!(pair(number(1), number(2)).to_string(), "(1, 2)");
    assert_eq!(pair(pair(number(1), text("x")), Value::Bool(true)).to_string(), "((1, x), true)");
}

#[test]
fn inspect_of_each_kind() {
    assert_eq!(number(-3).inspect(), "Int(-3)");
    assert_eq!(Value::Bool(true).inspect(), "Bool(true)");
    assert_eq!(text("x").inspect(), "Str(\"x\")");
    assert_eq!(text("a\"b\n").inspect(), "Str(\"a\\\"b\\n\")");
    assert_eq!(pair(number(1), text("y")).inspect(), "Tuple((Int(1), Str(\"y\")))");
}

#[test]
fn add_of_two_integers_is_their_sum() {
    assert!(matches!(number(1).add(&number(2)), Ok(Value::Int(3))));
    assert!(matches!(number(-5).add(&number(2)), Ok(Value::Int(-3))));
}

#[test]
fn add_wraps_on_overflow() {
    assert!(matches!(number(i32::MAX).add(&number(1)), Ok(Value::Int(i32::MIN))));
    assert!(matches!(number(i32::MIN).add(&number(-1)), Ok(Value::Int(i32::MAX))));
}

#[test]
fn add_of_other_kinds_concatenates_display_forms() {
    assert_eq!(shown(number(1).add(&text("x"))), "1x");
    assert_eq!(shown(Value::Bool(true).add(&number(1))), "true1");
    assert_eq!(shown(text("a").add(&text("b"))), "ab");
    assert_eq!(shown(pair(number(1), number(2)).add(&Value::Bool(false))), "(1, 2)false");
    assert!(matches!(number(1).add(&text("x")), Ok(Value::Str(_))));
}

#[test]
fn sub_and_mul_of_integers() {
    assert!(matches!(number(7).sub(&number(9), at(0)), Ok(Value::Int(-2))));
    assert!(matches!(number(7).mul(&number(-6), at(0)), Ok(Value::Int(-42))));
    assert!(matches!(number(i32::MIN).sub(&number(1), at(0)), Ok(Value::Int(i32::MAX))));
    assert!(matches!(number(65536).mul(&number(65536), at(0)), Ok(Value::Int(0))));
    assert!(matches!(number(i32::MAX).mul(&number(2), at(0)), Ok(Value::Int(-2))));
}

#[test]
fn sub_and_mul_reject_other_kinds() {
    let error = failure(number(1).sub(&text("x"), at(5)));
    assert_eq!(error.kind, RuntimeErrorKind::InvalidBinaryOperation);
    assert_eq!(error.message, "Cannot \"subtract\" Int(1) and Str(\"x\")");
    assert_eq!(error.location.start, 5);
    assert_eq!(error.location.end, 8);
    assert_eq!(error.location.filename, "main.rinha");
    let error = failure(Value::Bool(true).mul(&number(2), at(6)));
    assert_eq!(error.kind, RuntimeErrorKind::InvalidBinaryOperation);
    assert_eq!(error.message, "Cannot \"multiply\" Bool(true) and Int(2)");
    let error = failure(text("a").sub(&text("b"), at(6)));
    assert_eq!(error.kind, RuntimeErrorKind::InvalidBinaryOperation);
}

#[test]
fn div_truncates_toward_zero() {
    assert!(matches!(number(7).div(&number(2), at(0)), Ok(Value::Int(3))));
    assert!(matches!(number(-7).div(&number(2), at(0)), Ok(Value::Int(-3))));
    assert!(matches!(number(7).div(&number(-2), at(0)), Ok(Value::Int(-3))));
    assert!(matches!(number(-7).div(&number(-2), at(0)), Ok(Value::Int(3))));
    assert!(matches!(number(0).div(&number(5), at(0)), Ok(Value::Int(0))));
    assert!(matches!(number(1).div(&number(i32::MIN), at(0)), Ok(Value::Int(0))));
}

#[test]
fn div_of_the_least_integer_by_minus_one_wraps() {
    assert!(matches!(number(i32::MIN).div(&number(-1), at(0)), Ok(Value::Int(i32::MIN))));
}

#[test]
fn div_by_zero_is_its_own_error() {
    let error = failure(number(10).div(&number(0), at(4)));
    assert_eq!(error.kind, RuntimeErrorKind::DivisionByZero);
    assert_eq!(error.message, "Cannot divide 10 by 0");
    assert_eq!(error.location.start, 4);
    assert_eq!(error.to_string(), "Division by Zero: Cannot divide 10 by 0 at 4");
}

#[test]
fn div_rejects_other_kinds_before_looking_for_zero() {
    let error = failure(text("a").div(&number(0), at(4)));
    assert_eq!(error.kind, RuntimeErrorKind::InvalidBinaryOperation);
    assert_eq!(error.message, "Cannot \"divide\" Str(\"a\") and Int(0)");
}

#[test]
fn rem_has_the_sign_of_the_dividend() {
    assert!(matches!(number(7).rem(&number(2), at(0)), Ok(Value::Int(1))));
    assert!(matches!(number(-7).rem(&number(2), at(0)), Ok(Value::Int(-1))));
    assert!(matches!(number(7).rem(&number(-2), at(0)), Ok(Value::Int(1))));
    assert!(matches!(number(-7).rem(&number(-2), at(0)), Ok(Value::Int(-1))));
    assert!(matches!(number(6).rem(&number(3), at(0)), Ok(Value::Int(0))));
    assert!(matches!(number(i32::MIN).rem(&number(-1), at(0)), Ok(Value::Int(0))));
}

#[test]
fn rem_by_zero_is_division_by_zero() {
    let error = failure(number(-3).rem(&number(0), at(9)));
    assert_eq!(error.kind, RuntimeErrorKind::DivisionByZero);
    assert_eq!(error.message, "Cannot calculate remainder of -3 dividing by 0");
    let error = failure(number(1).rem(&Value::Bool(true), at(9)));
    assert_eq!(error.kind, RuntimeErrorKind::InvalidBinaryOperation);
    assert_eq!(error.message, "Cannot \"calculate remainder of\" Int(1) and Bool(true)");
}

#[test]
fn eq_and_neq_on_matching_kinds() {
    assert!(matches!(number(1).eq(&number(1), at(0)), Ok(Value::Bool(true))));
    assert!(matches!(number(1).eq(&number(2), at(0)), Ok(Value::Bool(false))));
    assert!(matches!(text("a").eq(&text("a"), at(0)), Ok(Value::Bool(true))));
    assert!(matches!(text("a").eq(&text("b"), at(0)), Ok(Value::Bool(false))));
    assert!(matches!(Value::Bool(true).eq(&Value::Bool(true), at(0)), Ok(Value::Bool(true))));
    assert!(matches!(Value::Bool(true).eq(&Value::Bool(false), at(0)), Ok(Value::Bool(false))));
    assert!(matches!(number(1).neq(&number(1), at(0)), Ok(Value::Bool(false))));
    assert!(matches!(number(1).neq(&number(2), at(0)), Ok(Value::Bool(true))));
    assert!(matches!(text("a").neq(&text("a"), at(0)), Ok(Value::Bool(false))));
    assert!(matches!(text("a").neq(&text("ab"), at(0)), Ok(Value::Bool(true))));
    assert!(matches!(Value::Bool(false).neq(&Value::Bool(true), at(0)), Ok(Value::Bool(true))));
}

#[test]
fn eq_and_neq_reject_cross_kind_pairs() {
    let error = failure(number(1).eq(&text("1"), at(2)));
    assert_eq!(error.kind, RuntimeErrorKind::InvalidBinaryOperation);
    assert_eq!(error.message, "Cannot compare Int(1) and Str(\"1\")");
    assert_eq!(error.location.start, 2);
    let error = failure(Value::Bool(true).neq(&number(1), at(2)));
    assert_eq!(error.kind, RuntimeErrorKind::InvalidBinaryOperation);
    let error = failure(pair(number(1), number(2)).eq(&pair(number(1), number(2)), at(2)));
    assert_eq!(error.kind, RuntimeErrorKind::InvalidBinaryOperation);
    assert_eq!(error.message, "Cannot compare Tuple((Int(1), Int(2))) and Tuple((Int(1), Int(2)))");
}

#[test]
fn order_of_integers() {
    assert!(matches!(number(1).lt(&number(2), at(0)), Ok(Value::Bool(true))));
    assert!(matches!(number(2).lt(&number(2), at(0)), Ok(Value::Bool(false))));
    assert!(matches!(number(2).lte(&number(2), at(0)), Ok(Value::Bool(true))));
    assert!(matches!(number(3).lte(&number(2), at(0)), Ok(Value::Bool(false))));
    assert!(matches!(number(3).gt(&number(2), at(0)), Ok(Value::Bool(true))));
    assert!(matches!(number(2).gt(&number(2), at(0)), Ok(Value::Bool(false))));
    assert!(matches!(number(2).gte(&number(2), at(0)), Ok(Value::Bool(true))));
    assert!(matches!(number(-1).gte(&number(2), at(0)), Ok(Value::Bool(false))));
}

#[test]
fn order_of_strings_is_lexicographic() {
    assert!(matches!(text("a").lt(&text("b"), at(0)), Ok(Value::Bool(true))));
    assert!(matches!(text("ab").lt(&text("abc"), at(0)), Ok(Value::Bool(true))));
    assert!(matches!(text("abc").lt(&text("ab"), at(0)), Ok(Value::Bool(false))));
    assert!(matches!(text("b").lt(&text("abc"), at(0)), Ok(Value::Bool(false))));
    assert!(matches!(text("").lt(&text(""), at(0)), Ok(Value::Bool(false))));
    assert!(matches!(text("").lt(&text("a"), at(0)), Ok(Value::Bool(true))));
    assert!(matches!(text("a").lte(&text("a"), at(0)), Ok(Value::Bool(true))));
    assert!(matches!(text("b").lte(&text("a"), at(0)), Ok(Value::Bool(false))));
    assert!(matches!(text("b").gt(&text("a"), at(0)), Ok(Value::Bool(true))));
    assert!(matches!(text("a").gt(&text("a"), at(0)), Ok(Value::Bool(false))));
    assert!(matches!(text("a").gte(&text("a"), at(0)), Ok(Value::Bool(true))));
    assert!(matches!(text("Z").gte(&text("a"), at(0)), Ok(Value::Bool(false))));
    assert!(matches!(text("z").lt(&text("é"), at(0)), Ok(Value::Bool(true))));
    assert!(matches!(text("é").lt(&text("😀"), at(0)), Ok(Value::Bool(true))));
}

#[test]
fn order_agrees_with_the_order_of_str() {
    let samples = ["", "a", "ab", "abc", "b", "B", "é", "z", "日本", "😀", "a😀", "aé"];
    for a in samples {
        for b in samples {
            assert!(matches!(text(a).lt(&text(b), at(0)), Ok(Value::Bool(r)) if r == (a < b)));
            assert!(matches!(text(a).lte(&text(b), at(0)), Ok(Value::Bool(r)) if r == (a <= b)));
            assert!(matches!(text(a).gt(&text(b), at(0)), Ok(Value::Bool(r)) if r == (a > b)));
            assert!(matches!(text(a).gte(&text(b), at(0)), Ok(Value::Bool(r)) if r == (a >= b)));
            assert!(matches!(text(a).eq(&text(b), at(0)), Ok(Value::Bool(r)) if r == (a == b)));
        }
    }
}

#[test]
fn order_rejects_mixed_kinds_and_booleans() {
    let error = failure(number(1).lt(&text("a"), at(3)));
    assert_eq!(error.kind, RuntimeErrorKind::InvalidBinaryOperation);
    assert_eq!(error.message, "Cannot compare Int(1) and Str(\"a\")");
    let error = failure(text("a").gte(&number(1), at(3)));
    assert_eq!(error.kind, RuntimeErrorKind::InvalidBinaryOperation);
    let error = failure(Value::Bool(true).lt(&Value::Bool(false), at(3)));
    assert_eq!(error.kind, RuntimeErrorKind::InvalidBinaryOperation);
    assert_eq!(error.message, "Cannot compare Bool(true) and Bool(false)");
    let error = failure(Value::Bool(true).lte(&Value::Bool(false), at(3)));
    assert_eq!(error.kind, RuntimeErrorKind::InvalidBinaryOperation);
    let error = failure(Value::Bool(true).gt(&number(0), at(3)));
    assert_eq!(error.kind, RuntimeErrorKind::InvalidBinaryOperation);
}

#[test]
fn and_or_on_booleans() {
    assert!(matches!(Value::Bool(true).and(&Value::Bool(true), at(0)), Ok(Value::Bool(true))));
    assert!(matches!(Value::Bool(true).and(&Value::Bool(false), at(0)), Ok(Value::Bool(false))));
    assert!(matches!(Value::Bool(false).or(&Value::Bool(true), at(0)), Ok(Value::Bool(true))));
    assert!(matches!(Value::Bool(false).or(&Value::Bool(false), at(0)), Ok(Value::Bool(false))));
}

#[test]
fn and_or_reject_other_kinds() {
    let error = failure(Value::Bool(true).and(&number(1), at(1)));
    assert_eq!(error.kind, RuntimeErrorKind::InvalidBinaryOperation);
    assert_eq!(error.message, "Cannot compare Bool(true) and Int(1)");
    let error = failure(number(0).or(&Value::Bool(true), at(1)));
    assert_eq!(error.kind, RuntimeErrorKind::InvalidBinaryOperation);
    assert_eq!(error.message, "Cannot compare Int(0) and Bool(true)");
}

#[test]
fn error_kinds_in_words() {
    assert_eq!(RuntimeErrorKind::ArgumentError.to_string(), "Argument Error");
    assert_eq!(RuntimeErrorKind::DivisionByZero.to_string(), "Division by Zero");
    assert_eq!(RuntimeErrorKind::InvalidBinaryOperation.to_string(), "Invalid Binary Operation");
}

#[test]
fn error_line_has_kind_message_and_offset() {
    let error = RuntimeError {
        message: String::from("Not a tuple"),
        location: at(-12),
        kind: RuntimeErrorKind::ArgumentError,
    };
    assert_eq!(error.to_string(), "Argument Error: Not a tuple at -12");
}

#[test]
fn clone_keeps_the_value() {
    let value = pair(text("a"), pair(number(1), Value::Bool(false)));
    assert_eq!(value.clone().to_string(), "(a, (1, false))");
    assert_eq!(value.clone().inspect(), value.inspect());
}

#[test]
fn errors_of_the_operators() {
    let error = invalid_numeric_op(String::from("divide"), &number(1), &text("two"), at(7));
    assert_eq!(error.kind, RuntimeErrorKind::InvalidBinaryOperation);
    assert_eq!(error.message, "Cannot \"divide\" Int(1) and Str(\"two\")");
    assert_eq!(error.location.start, 7);
    assert_eq!(
        error.to_string(),
        "Invalid Binary Operation: Cannot \"divide\" Int(1) and Str(\"two\") at 7"
    );
    let error = invalid_numeric_op(String::from("a \"b\""), &number(1), &number(2), at(7));
    assert_eq!(error.message, "Cannot \"a \\\"b\\\"\" Int(1) and Int(2)");
    let error = divison_by_zero(String::from("nothing left"), at(8));
    assert_eq!(error.kind, RuntimeErrorKind::DivisionByZero);
    assert_eq!(error.message, "nothing left");
    assert_eq!(error.location.start, 8);
    let error = invalid_comparison(&Value::Bool(false), &pair(number(1), number(2)), at(9));
    assert_eq!(error.kind, RuntimeErrorKind::InvalidBinaryOperation);
    assert_eq!(error.message, "Cannot compare Bool(false) and Tuple((Int(1), Int(2)))");
    assert_eq!(error.location.start, 9);
}
