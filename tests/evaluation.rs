use dc_calc::calculator::{handle_ctrl, handle_op, opt_to_err};
use dc_calc::{calculator, parse_int64, Arithmetic, CalcError, Control, Integer128, MathError, Operator, ParseError, Token};

fn ints(values: &[i128]) -> Vec<Integer128> {
    values.iter().map(|v| Integer128::new(*v)).collect()
}

fn run(text: &str) -> Result<Vec<Integer128>, CalcError> {
    match parse_int64(text.to_string()) {
        Ok(tokens) => calculator(tokens, Vec::new()),
        Err(e) => Err(CalcError::Parse(e)),
    }
}

#[test]
fn adds_two_numbers() {
    assert_eq!(run("3 4 + "), Ok(ints(&[7])));
}

#[test]
fn subtracts_second_from_first() {
    assert_eq!(run("10 3 - "), Ok(ints(&[7])));
}

#[test]
fn multiplies_two_numbers() {
    assert_eq!(run("6 7 * "), Ok(ints(&[42])));
}

#[test]
fn divides_first_by_second() {
    assert_eq!(run("20 6 / "), Ok(ints(&[3])));
    assert_eq!(run("_7 2 / "), Ok(ints(&[-3])));
}

#[test]
fn modulo_and_power() {
    assert_eq!(run("20 6 % "), Ok(ints(&[2])));
    assert_eq!(run("_7 2 % "), Ok(ints(&[-1])));
    assert_eq!(run("2 10 ^ "), Ok(ints(&[1024])));
    assert_eq!(run("3 4 ^ "), Ok(ints(&[81])));
}

#[test]
fn division_by_zero_is_math_error() {
    assert_eq!(run("2 0 / "), Err(CalcError::Math(MathError)));
    assert_eq!(run("2 0 % "), Err(CalcError::Math(MathError)));
}

#[test]
fn duplicate_pushes_copy() {
    assert_eq!(run("5 d "), Ok(ints(&[5, 5])));
}

#[test]
fn swap_reverses_top_two() {
    assert_eq!(run("1 2 r "), Ok(ints(&[2, 1])));
}

#[test]
fn negative_literal() {
    assert_eq!(run("_5 3 + "), Ok(ints(&[-2])));
    assert_eq!(run("_12 "), Ok(ints(&[-12])));
}

#[test]
fn bare_underscore_is_parse_error() {
    assert_eq!(parse_int64("_ ".to_string()), Err(ParseError));
    assert_eq!(parse_int64("5 _".to_string()), Err(ParseError));
}

#[test]
fn unknown_character_is_parse_error() {
    assert_eq!(parse_int64("3 @ ".to_string()), Err(ParseError));
    assert_eq!(run("3 @ "), Err(CalcError::Parse(ParseError)));
}

#[test]
fn clear_twice_is_clear_once() {
    let mut once = ints(&[1, 2, 3]);
    assert_eq!(handle_ctrl(&mut once, Control::Clear), Ok(()));
    let mut twice = ints(&[1, 2, 3]);
    assert_eq!(handle_ctrl(&mut twice, Control::Clear), Ok(()));
    assert_eq!(handle_ctrl(&mut twice, Control::Clear), Ok(()));
    assert!(once.is_empty());
    assert_eq!(once, twice);
}

#[test]
fn duplicate_then_pop_restores_stack() {
    let before = ints(&[4, 9]);
    let mut stack = before.clone();
    assert_eq!(handle_ctrl(&mut stack, Control::Duplicate), Ok(()));
    assert_eq!(stack, ints(&[4, 9, 9]));
    assert_eq!(handle_ctrl(&mut stack, Control::Pop), Ok(()));
    assert_eq!(stack, before);
    assert_eq!(run("4 9 d R "), Ok(ints(&[4, 9])));
}

#[test]
fn add_overflow_is_math_error() {
    let text = format!("{} 1 + ", i128::MAX);
    assert_eq!(run(&text), Err(CalcError::Math(MathError)));
    let text = format!("_{} 1 - ", i128::MIN.unsigned_abs());
    assert_eq!(run(&text), Err(CalcError::Math(MathError)));
}

#[test]
fn multiply_overflow_is_math_error() {
    let text = format!("{} 2 * ", i128::MAX / 2 + 1);
    assert_eq!(run(&text), Err(CalcError::Math(MathError)));
    let mut stack = ints(&[i128::MAX, 2]);
    assert_eq!(handle_op(&mut stack, Operator::Multiply), Err(CalcError::Math(MathError)));
    assert!(stack.is_empty());
}

#[test]
fn power_overflow_and_bad_exponent() {
    assert_eq!(run("2 127 ^ "), Err(CalcError::Math(MathError)));
    assert_eq!(run("2 126 ^ "), Ok(ints(&[1i128 << 126])));
    assert_eq!(run("2 _1 ^ "), Err(CalcError::Math(MathError)));
}

#[test]
fn underflow_on_empty_stack_leaves_it_unchanged() {
    let mut stack: Vec<Integer128> = Vec::new();
    assert_eq!(handle_op(&mut stack, Operator::Add), Err(CalcError::Parse(ParseError)));
    assert!(stack.is_empty());
    for control in [Control::PrintFirst, Control::Pop, Control::Duplicate, Control::Swap] {
        assert_eq!(handle_ctrl(&mut stack, control), Err(ParseError));
        assert!(stack.is_empty());
    }
    assert_eq!(handle_op(&mut stack, Operator::Sqrt), Err(CalcError::Parse(ParseError)));
    assert_eq!(handle_op(&mut stack, Operator::Negate), Err(CalcError::Parse(ParseError)));
}

#[test]
fn underflow_on_second_pop_loses_first_item() {
    let mut stack = ints(&[5]);
    assert_eq!(handle_op(&mut stack, Operator::Add), Err(CalcError::Parse(ParseError)));
    assert!(stack.is_empty());
    let mut stack = ints(&[5]);
    assert_eq!(handle_ctrl(&mut stack, Control::Swap), Err(ParseError));
    assert!(stack.is_empty());
    assert_eq!(run("5 + "), Err(CalcError::Parse(ParseError)));
}

#[test]
fn math_error_discards_operands() {
    let mut stack = ints(&[1, 2, 0]);
    assert_eq!(handle_op(&mut stack, Operator::Divide), Err(CalcError::Math(MathError)));
    assert_eq!(stack, ints(&[1]));
}

#[test]
fn sqrt_always_fails_on_integers() {
    assert_eq!(run("4 v "), Err(CalcError::Math(MathError)));
}

#[test]
fn negate_flips_sign() {
    let mut stack = ints(&[3, 8]);
    assert_eq!(handle_op(&mut stack, Operator::Negate), Ok(()));
    assert_eq!(stack, ints(&[3, -8]));
    let mut stack = ints(&[i128::MIN]);
    assert_eq!(handle_op(&mut stack, Operator::Negate), Err(CalcError::Math(MathError)));
}

#[test]
fn print_controls_leave_stack() {
    assert_eq!(run("1 2 p f "), Ok(ints(&[1, 2])));
    assert_eq!(run("f "), Ok(Vec::new()));
    assert_eq!(run("p "), Err(CalcError::Parse(ParseError)));
    assert_eq!(run("1 2 n "), Ok(ints(&[1])));
}

#[test]
fn calculator_continues_from_given_stack() {
    let tokens = parse_int64("+ ".to_string()).unwrap();
    assert_eq!(calculator(tokens, ints(&[2, 3])), Ok(ints(&[5])));
}

#[test]
fn option_to_error() {
    assert_eq!(opt_to_err(Some(3)), Ok(()));
    assert_eq!(opt_to_err::<u8>(None), Err(ParseError));
}

#[test]
fn integer_methods() {
    let mut x = Integer128::new(7);
    assert_eq!(x.subtract(Integer128::new(10)), Ok(()));
    assert_eq!(x.value, -3);
    assert_eq!(x.pow(Integer128::new(3)), Ok(()));
    assert_eq!(x.value, -27);
    assert_eq!(x.sqrt(), Err(MathError));
    let y = x.duplicate();
    assert_eq!(y, x);
    let mut z = Integer128::new(i128::MIN);
    assert_eq!(z.divide(Integer128::new(-1)), Err(MathError));
    assert_eq!(z.modulo(Integer128::new(-1)), Err(MathError));
}

#[test]
fn tokens_in_order() {
    let tokens = parse_int64("12 _3 +n c".to_string()).unwrap();
    assert_eq!(
        tokens,
        vec![
            Token::Num(Integer128::new(12)),
            Token::Num(Integer128::new(-3)),
            Token::Op(Operator::Add),
            Token::Ctrl(Control::PrintFirst),
            Token::Ctrl(Control::Pop),
            Token::Ctrl(Control::Clear),
        ]
    );
}

#[test]
fn number_ends_only_at_whitespace() {
    let tokens = parse_int64("3 4+ ".to_string()).unwrap();
    assert_eq!(
        tokens,
        vec![Token::Num(Integer128::new(3)), Token::Op(Operator::Add), Token::Num(Integer128::new(4))]
    );
}

#[test]
fn trailing_number_is_flushed_at_end() {
    assert_eq!(run("3 4 +"), Ok(ints(&[7])));
    assert_eq!(run("3 4"), Ok(ints(&[3, 4])));
}

#[test]
fn literal_limits() {
    let text = format!("{} ", i128::MAX);
    assert_eq!(run(&text), Ok(ints(&[i128::MAX])));
    let text = format!("_{} ", i128::MIN.unsigned_abs());
    assert_eq!(run(&text), Ok(ints(&[i128::MIN])));
    let text = format!("{}0 ", i128::MAX);
    assert_eq!(parse_int64(text), Err(ParseError));
}

#[test]
fn failed_operation_leaves_value_unchanged() {
    let mut x = Integer128::new(i128::MAX);
    assert_eq!(x.add(Integer128::new(1)), Err(MathError));
    assert_eq!(x.value, i128::MAX);
    assert_eq!(x.multiply(Integer128::new(2)), Err(MathError));
    assert_eq!(x.value, i128::MAX);
    let mut y = Integer128::new(i128::MIN);
    assert_eq!(y.subtract(Integer128::new(1)), Err(MathError));
    assert_eq!(y.value, i128::MIN);
    assert_eq!(y.negate(), Err(MathError));
    assert_eq!(y.value, i128::MIN);
    let mut z = Integer128::new(2);
    assert_eq!(z.divide(Integer128::new(0)), Err(MathError));
    assert_eq!(z.value, 2);
    assert_eq!(z.modulo(Integer128::new(0)), Err(MathError));
    assert_eq!(z.value, 2);
    assert_eq!(z.pow(Integer128::new(200)), Err(MathError));
    assert_eq!(z.value, 2);
    assert_eq!(z.pow(Integer128::new(-1)), Err(MathError));
    assert_eq!(z.value, 2);
    assert_eq!(z.sqrt(), Err(MathError));
    assert_eq!(z.value, 2);
}

#[test]
fn error_messages() {
    assert_eq!(MathError.message(), "An arithmetic error occurred.");
    assert_eq!(ParseError.message(), "Invalid token, could not parse expression.");
}
