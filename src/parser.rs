//! The tokenizer: a single left-to-right pass over the characters of an
//! expression, with one character of lookahead.
//!
//! A number is a run of decimal digits, negative where a `_` stands right
//! before its first digit. Whitespace (a space or a newline) ends a number;
//! so does the end of the input. Operators and control symbols are read one
//! character at a time and are emitted at once, also between the digits of a
//! number that is still being read. A `_` inside a number, before one of its
//! digits, has no effect: the sign of a number is fixed by its first digit.
//! A number that does not fit in an `i128` is a `ParseError`.

use vstd::prelude::*;

use crate::calculator::{binary_value, evaluate, lemma_two_operands, CalcError, ParseError};
use crate::number::Arithmetic;
use crate::integer::{fits_i128, Integer128};
use crate::number::{Control, MathError, Operator, Token};

verus! {

/// Whether `c` is a decimal digit.
pub open spec fn is_digit(c: char) -> bool {
    '0' <= c <= '9'
}

/// The value of the digit `c`, negated where the number is negative.
pub open spec fn signed_digit(c: char, negative: bool) -> int {
    if negative {
        '0' as int - c as int
    } else {
        c as int - '0' as int
    }
}

/// The operator that the symbol `c` stands for.
pub open spec fn op_symbol(c: char) -> Option<Operator> {
    match c {
        '+' => Some(Operator::Add),
        '-' => Some(Operator::Subtract),
        '*' => Some(Operator::Multiply),
        '/' => Some(Operator::Divide),
        '%' => Some(Operator::Mod),
        '^' => Some(Operator::Pow),
        'v' => Some(Operator::Sqrt),
        _ => None,
    }
}

/// The control sequence that the symbol `c` stands for; `n` is read apart,
/// as it stands for two of them.
pub open spec fn ctrl_symbol(c: char) -> Option<Control> {
    match c {
        'p' => Some(Control::PrintFirst),
        'f' => Some(Control::PrintAll),
        'R' => Some(Control::Pop),
        'c' => Some(Control::Clear),
        'd' => Some(Control::Duplicate),
        'r' => Some(Control::Swap),
        _ => None,
    }
}

/// `tokens`, followed by the number being read, if any.
pub open spec fn flushed(tokens: Seq<Token<Integer128>>, value: int, pending: bool) -> Seq<Token<Integer128>> {
    if pending {
        tokens.push(Token::Num(Integer128 { value: value as i128 }))
    } else {
        tokens
    }
}

/// The tokens of `s`, read from position `i` on, where `tokens` have been
/// read before `i`, and `value` is the number being read if `pending`.
/// `negative` is the sign of that number, or, where none is being read,
/// whether a `_` came right before `i`.
///
/// Fails on a character that is no symbol, on a `_` that no digit follows,
/// and on a number that does not fit in an `i128`.
pub open spec fn tokens_from(
    s: Seq<char>,
    i: int,
    tokens: Seq<Token<Integer128>>,
    value: int,
    pending: bool,
    negative: bool,
) -> Result<Seq<Token<Integer128>>, ParseError>
    decreases s.len() - i,
{
    if i >= s.len() {
        Ok(flushed(tokens, value, pending))
    } else {
        let c = s[i];
        if is_digit(c) {
            let v = value * 10 + signed_digit(c, negative);
            if fits_i128(v) {
                tokens_from(s, i + 1, tokens, v, true, negative)
            } else {
                Err(ParseError)
            }
        } else if c == ' ' || c == '\n' {
            tokens_from(s, i + 1, flushed(tokens, value, pending), 0, false, false)
        } else if c == '_' {
            if i + 1 < s.len() && is_digit(s[i + 1]) {
                tokens_from(s, i + 1, tokens, value, pending, negative || !pending)
            } else {
                Err(ParseError)
            }
        } else if c == 'n' {
            let t = tokens.push(Token::Ctrl(Control::PrintFirst)).push(Token::Ctrl(Control::Pop));
            tokens_from(s, i + 1, t, value, pending, negative)
        } else {
            match op_symbol(c) {
                Some(op) => tokens_from(s, i + 1, tokens.push(Token::Op(op)), value, pending, negative),
                None => match ctrl_symbol(c) {
                    Some(k) => tokens_from(s, i + 1, tokens.push(Token::Ctrl(k)), value, pending, negative),
                    None => Err(ParseError),
                },
            }
        }
    }
}

/// The tokens of the expression `s`, or a `ParseError`.
pub open spec fn tokenize(s: Seq<char>) -> Result<Seq<Token<Integer128>>, ParseError> {
    tokens_from(s, 0, Seq::empty(), 0, false, false)
}

/// Whether every character of `d` is a decimal digit.
pub open spec fn all_digits(d: Seq<char>) -> bool {
    forall|k: int| 0 <= k < d.len() ==> is_digit(#[trigger] d[k])
}

/// The value of the decimal numeral `d`.
pub open spec fn digits_value(d: Seq<char>) -> int
    decreases d.len(),
{
    if d.len() == 0 {
        0
    } else {
        digits_value(d.drop_last()) * 10 + signed_digit(d.last(), false)
    }
}

/// A numeral is worth at least as much as each of its prefixes.
proof fn lemma_prefix_value(d: Seq<char>, k: int)
    requires
        all_digits(d),
        0 <= k <= d.len(),
    ensures
        0 <= digits_value(d.take(k)) <= digits_value(d),
    decreases d.len(),
{
    if k == d.len() {
        assert(d.take(k) =~= d);
        if d.len() > 0 {
            lemma_prefix_value(d.drop_last(), k - 1);
            assert(d.drop_last().take(k - 1) =~= d.drop_last());
        }
    } else {
        lemma_prefix_value(d.drop_last(), k);
        assert(d.drop_last().take(k) =~= d.take(k));
        lemma_prefix_value(d.drop_last(), d.len() - 1);
        assert(d.drop_last().take(d.len() - 1) =~= d.drop_last());
    }
}

/// Reading the first `k` digits of the numeral `d`, which stands at `i` in
/// `s`, where no number was being read, leaves the value of those digits
/// pending.
proof fn lemma_read_digits(s: Seq<char>, i: int, d: Seq<char>, tokens: Seq<Token<Integer128>>, k: int)
    requires
        all_digits(d),
        fits_i128(digits_value(d)),
        0 <= i,
        i + d.len() <= s.len(),
        s.subrange(i, i + d.len()) == d,
        0 <= k <= d.len(),
    ensures
        tokens_from(s, i, tokens, 0, false, false) == tokens_from(s, i + k, tokens, digits_value(d.take(k)), k > 0, false),
    decreases k,
{
    if k > 0 {
        lemma_read_digits(s, i, d, tokens, k - 1);
        assert(d.take(k).drop_last() =~= d.take(k - 1));
        assert(s[i + k - 1] == d[k - 1]);
        assert(is_digit(d[k - 1]));
        lemma_prefix_value(d, k);
        if k == 1 {
            assert(d.take(0) =~= Seq::<char>::empty());
        }
    } else {
        assert(d.take(0) =~= Seq::<char>::empty());
    }
}

/// Two non-negative numerals and a binary operator symbol, each followed by a
/// space, read as the two numbers and the operator; evaluated from an empty
/// stack they leave the operator applied to the first number (the one under)
/// and the second, or fail with a `MathError` where that is not representable.
pub proof fn lemma_two_operands_text(a: Seq<char>, b: Seq<char>, symbol: char)
    requires
        a.len() > 0,
        b.len() > 0,
        all_digits(a),
        all_digits(b),
        fits_i128(digits_value(a)),
        fits_i128(digits_value(b)),
        op_symbol(symbol) is Some,
        op_symbol(symbol)->0.is_binary(),
    ensures
        ({
            let x = Integer128 { value: digits_value(a) as i128 };
            let y = Integer128 { value: digits_value(b) as i128 };
            let op = op_symbol(symbol)->0;
            let tokens = seq![Token::Num(x), Token::Num(y), Token::Op(op)];
            &&& tokenize(a + seq![' '] + b + seq![' ', symbol, ' ']) == Ok::<Seq<Token<Integer128>>, ParseError>(tokens)
            &&& evaluate(tokens, Seq::empty()) == match binary_value(op, x, y) {
                Some(v) => Ok(seq![v]),
                None => Err(CalcError::Math(MathError)),
            }
        }),
{
    let x = Integer128 { value: digits_value(a) as i128 };
    let y = Integer128 { value: digits_value(b) as i128 };
    let op = op_symbol(symbol)->0;
    let s = a + seq![' '] + b + seq![' ', symbol, ' '];
    let la = a.len() as int;
    let lb = b.len() as int;
    let none = Seq::<Token<Integer128>>::empty();
    let one = none.push(Token::Num(x));
    let two = one.push(Token::Num(y));
    let three = two.push(Token::Op(op));
    assert(s.subrange(0, la) =~= a);
    assert(s.subrange(la + 1, la + 1 + lb) =~= b);
    assert(s[la] == ' ');
    assert(s[la + 1 + lb] == ' ');
    assert(s[la + 2 + lb] == symbol);
    assert(s[la + 3 + lb] == ' ');
    assert(s.len() == la + lb + 4);
    lemma_read_digits(s, 0, a, none, la);
    assert(a.take(la) =~= a);
    lemma_read_digits(s, la + 1, b, one, lb);
    assert(b.take(lb) =~= b);
    assert(tokens_from(s, la + lb + 4, three, 0, false, false) == Ok::<Seq<Token<Integer128>>, ParseError>(three));
    assert(tokens_from(s, la + lb + 3, three, 0, false, false) == Ok::<Seq<Token<Integer128>>, ParseError>(three));
    assert(tokens_from(s, la + lb + 2, two, 0, false, false) == Ok::<Seq<Token<Integer128>>, ParseError>(three));
    assert(tokens_from(s, la + lb + 1, one, digits_value(b), true, false) == Ok::<Seq<Token<Integer128>>, ParseError>(three));
    assert(tokens_from(s, la, none, digits_value(a), true, false) == tokens_from(s, la + 1, one, 0, false, false));
    assert(three =~= seq![Token::Num(x), Token::Num(y), Token::Op(op)]);
    lemma_two_operands(x, y, op);
}

/// The characters of `input`, in order.
fn chars_of(input: &str) -> (r: Vec<char>)
    ensures
        r@ == input@,
{
    broadcast use vstd::string::axiom_spec_iter;

    let mut r: Vec<char> = Vec::new();
    for c in it: input.chars()
        invariant
            it.seq() == input@,
            r@ == it.seq().take(it.index() as int),
    {
        r.push(c);
    }
    r
}

/// Whether `c` is a decimal digit.
fn is_digit_char(c: char) -> (r: bool)
    ensures
        r == is_digit(c),
{
    '0' <= c && c <= '9'
}

/// Tokenizes the expression `input`: the tokens in the order their
/// characters stand, or a `ParseError` on the first character that cannot be
/// read.
pub fn parse_int64(input: String) -> (r: Result<Vec<Token<Integer128>>, ParseError>)
    ensures
        match r {
            Ok(t) => tokenize(input@) == Ok::<Seq<Token<Integer128>>, ParseError>(t@),
            Err(e) => tokenize(input@) == Err::<Seq<Token<Integer128>>, ParseError>(e),
        },
{
    let chars = chars_of(input.as_str());
    let ghost s = input@;
    let mut tokens: Vec<Token<Integer128>> = Vec::new();
    let mut value: i128 = 0;
    let mut pending = false;
    let mut negative = false;
    let mut i: usize = 0;
    while i < chars.len()
        invariant
            s == input@,
            chars@ == s,
            i <= s.len(),
            tokenize(s) == tokens_from(s, i as int, tokens@, value as int, pending, negative),
            !pending ==> value == 0,
            negative ==> value <= 0,
            !negative ==> value >= 0,
        decreases s.len() - i,
    {
        let c = chars[i];
        if is_digit_char(c) {
            let d = (c as u32 - '0' as u32) as i128;
            let scaled = match value.checked_mul(10) {
                Some(x) => x,
                None => return Err(ParseError),
            };
            let next = if negative {
                scaled.checked_sub(d)
            } else {
                scaled.checked_add(d)
            };
            match next {
                Some(x) => value = x,
                None => return Err(ParseError),
            }
            pending = true;
        } else if c == ' ' || c == '\n' {
            if pending {
                tokens.push(Token::Num(Integer128::new(value)));
            }
            value = 0;
            pending = false;
            negative = false;
        } else if c == '_' {
            if i + 1 < chars.len() && is_digit_char(chars[i + 1]) {
                if !pending {
                    negative = true;
                }
            } else {
                return Err(ParseError);
            }
        } else if c == 'n' {
            tokens.push(Token::Ctrl(Control::PrintFirst));
            tokens.push(Token::Ctrl(Control::Pop));
        } else {
            let token = match c {
                '+' => Token::Op(Operator::Add),
                '-' => Token::Op(Operator::Subtract),
                '*' => Token::Op(Operator::Multiply),
                '/' => Token::Op(Operator::Divide),
                '%' => Token::Op(Operator::Mod),
                '^' => Token::Op(Operator::Pow),
                'v' => Token::Op(Operator::Sqrt),
                'p' => Token::Ctrl(Control::PrintFirst),
                'f' => Token::Ctrl(Control::PrintAll),
                'R' => Token::Ctrl(Control::Pop),
                'c' => Token::Ctrl(Control::Clear),
                'd' => Token::Ctrl(Control::Duplicate),
                'r' => Token::Ctrl(Control::Swap),
                _ => return Err(ParseError),
            };
            tokens.push(token);
        }
        i += 1;
    }
    if pending {
        tokens.push(Token::Num(Integer128::new(value)));
    }
    Ok(tokens)
}

} // verus!
