//! The stack machine: applies tokens, one at a time and in order, to a stack of
//! numbers whose top is its last element.

use vstd::prelude::*;

use crate::number::{Arithmetic, Control, MathError, Operator, Token};

verus! {

/// The input could not be tokenized, or a token found too few items on the
/// stack.
#[derive(Debug, Clone, Copy, PartialEq, Eq, Structural)]
pub struct ParseError;

impl ParseError {
    /// The message that describes this error.
    pub fn message(&self) -> (r: &'static str)
        ensures
            r@ == "Invalid token, could not parse expression."@,
    {
        "Invalid token, could not parse expression."
    }
}

/// Why an evaluation stopped.
#[derive(Debug, Clone, Copy, PartialEq, Eq, Structural)]
pub enum CalcError {
    /// Too few items on the stack for an operator or a control sequence.
    Parse(ParseError),
    /// An arithmetic operation had no representable result.
    Math(MathError),
}

/// The value a binary operator computes from `lhs`, the item under the top,
/// and `rhs`, the top; `None` where it is not representable, and for a unary
/// operator.
pub open spec fn binary_value<T: Arithmetic>(op: Operator, lhs: T, rhs: T) -> Option<T> {
    match op {
        Operator::Add => lhs.spec_add(rhs),
        Operator::Subtract => lhs.spec_subtract(rhs),
        Operator::Multiply => lhs.spec_multiply(rhs),
        Operator::Divide => lhs.spec_divide(rhs),
        Operator::Mod => lhs.spec_modulo(rhs),
        Operator::Pow => lhs.spec_pow(rhs),
        Operator::Sqrt | Operator::Negate => None,
    }
}

/// The value a unary operator computes from the top item `x`.
pub open spec fn unary_value<T: Arithmetic>(op: Operator, x: T) -> Option<T> {
    if op is Sqrt {
        x.spec_sqrt()
    } else {
        x.spec_negate()
    }
}

/// The stack an operator leaves behind, and whether it succeeded.
///
/// A binary operator pops the top, then the item under it, and pushes the
/// result. Where the second pop finds the stack empty, the first popped item
/// is lost; where the arithmetic fails, both operands are lost.
pub open spec fn op_outcome<T: Arithmetic>(s: Seq<T>, op: Operator) -> (Seq<T>, Result<(), CalcError>) {
    if s.len() == 0 {
        (s, Err(CalcError::Parse(ParseError)))
    } else if op.is_binary() {
        if s.len() == 1 {
            (s.drop_last(), Err(CalcError::Parse(ParseError)))
        } else {
            let rest = s.subrange(0, s.len() - 2);
            match binary_value(op, s[s.len() - 2], s.last()) {
                Some(v) => (rest.push(v), Ok(())),
                None => (rest, Err(CalcError::Math(MathError))),
            }
        }
    } else {
        match unary_value(op, s.last()) {
            Some(v) => (s.drop_last().push(v), Ok(())),
            None => (s.drop_last(), Err(CalcError::Math(MathError))),
        }
    }
}

/// The stack a control sequence leaves behind, and whether it succeeded.
///
/// Printing never changes the stack. A swap on a stack of one item loses it,
/// as the first pop succeeds and the second fails.
pub open spec fn ctrl_outcome<T>(s: Seq<T>, control: Control) -> (Seq<T>, Result<(), ParseError>) {
    match control {
        Control::PrintFirst => (s, if s.len() == 0 { Err(ParseError) } else { Ok(()) }),
        Control::PrintAll => (s, Ok(())),
        Control::Pop => if s.len() == 0 {
            (s, Err(ParseError))
        } else {
            (s.drop_last(), Ok(()))
        },
        Control::Clear => (Seq::empty(), Ok(())),
        Control::Duplicate => if s.len() == 0 {
            (s, Err(ParseError))
        } else {
            (s.push(s.last()), Ok(()))
        },
        Control::Swap => if s.len() == 0 {
            (s, Err(ParseError))
        } else if s.len() == 1 {
            (s.drop_last(), Err(ParseError))
        } else {
            (s.subrange(0, s.len() - 2).push(s.last()).push(s[s.len() - 2]), Ok(()))
        },
    }
}

/// The stack after one token, or the error it stops with.
pub open spec fn step<T: Arithmetic>(s: Seq<T>, token: Token<T>) -> Result<Seq<T>, CalcError> {
    match token {
        Token::Num(v) => Ok(s.push(v)),
        Token::Op(op) => match op_outcome(s, op).1 {
            Ok(_) => Ok(op_outcome(s, op).0),
            Err(e) => Err(e),
        },
        Token::Ctrl(c) => match ctrl_outcome(s, c).1 {
            Ok(_) => Ok(ctrl_outcome(s, c).0),
            Err(e) => Err(CalcError::Parse(e)),
        },
    }
}

/// The stack after all of `tokens`, applied in order to `s`, or the first
/// error met.
pub open spec fn evaluate<T: Arithmetic>(tokens: Seq<Token<T>>, s: Seq<T>) -> Result<Seq<T>, CalcError>
    decreases tokens.len(),
{
    if tokens.len() == 0 {
        Ok(s)
    } else {
        match step(s, tokens[0]) {
            Ok(next) => evaluate(tokens.drop_first(), next),
            Err(e) => Err(e),
        }
    }
}

/// Two operands followed by a binary operator, evaluated from an empty stack,
/// leave one item: the operator applied to the first operand (the one under)
/// and the second (the top); or fail with a `MathError` where that value is
/// not representable.
pub proof fn lemma_two_operands<T: Arithmetic>(a: T, b: T, op: Operator)
    requires
        op.is_binary(),
    ensures
        evaluate(seq![Token::Num(a), Token::Num(b), Token::Op(op)], Seq::empty()) == match binary_value(op, a, b) {
            Some(v) => Ok(seq![v]),
            None => Err(CalcError::Math(MathError)),
        },
{
    let tokens = seq![Token::Num(a), Token::Num(b), Token::Op(op)];
    let s1 = Seq::<T>::empty().push(a);
    let s2 = s1.push(b);
    assert(tokens.drop_first() =~= seq![Token::Num(b), Token::Op(op)]);
    assert(tokens.drop_first().drop_first() =~= seq![Token::Op(op)]);
    assert(tokens.drop_first().drop_first().drop_first() =~= Seq::<Token<T>>::empty());
    assert(s2.subrange(0, 0) =~= Seq::<T>::empty());
    assert(Seq::<T>::empty().push(binary_value(op, a, b)->0) =~= seq![binary_value(op, a, b)->0]);
    reveal_with_fuel(evaluate, 4);
}

/// Clearing is idempotent: a second clear leaves the same, empty, stack as
/// the first.
pub proof fn lemma_clear_idempotent<T>(s: Seq<T>)
    ensures
        ctrl_outcome(ctrl_outcome(s, Control::Clear).0, Control::Clear) == ctrl_outcome(s, Control::Clear),
        ctrl_outcome(s, Control::Clear) == (Seq::<T>::empty(), Ok::<(), ParseError>(())),
{
}

/// Duplicating the top item and then popping it leaves the stack as it was
/// before the duplicate.
pub proof fn lemma_duplicate_pop<T: Arithmetic>(s: Seq<T>)
    requires
        s.len() > 0,
    ensures
        evaluate(seq![Token::Ctrl(Control::Duplicate), Token::Ctrl(Control::Pop)], s) == Ok::<Seq<T>, CalcError>(s),
{
    let tokens = seq![Token::<T>::Ctrl(Control::Duplicate), Token::Ctrl(Control::Pop)];
    assert(tokens.drop_first() =~= seq![Token::Ctrl(Control::Pop)]);
    assert(tokens.drop_first().drop_first() =~= Seq::<Token<T>>::empty());
    assert(s.push(s.last()).drop_last() =~= s);
    reveal_with_fuel(evaluate, 3);
}

/// An operator or a control sequence that finds fewer items on the stack than
/// it needs fails with a `ParseError`. Where the stack is empty it is left
/// unchanged; a binary operator or a swap that finds one item has popped it,
/// and leaves the stack empty.
pub proof fn lemma_underflow<T: Arithmetic>(s: Seq<T>, op: Operator, control: Control)
    ensures
        s.len() == 0 ==> op_outcome(s, op) == (s, Err::<(), CalcError>(CalcError::Parse(ParseError))),
        s.len() == 1 && op.is_binary() ==> op_outcome(s, op) == (Seq::<T>::empty(), Err::<(), CalcError>(CalcError::Parse(ParseError))),
        s.len() == 0 && (control is PrintFirst || control is Pop || control is Duplicate || control is Swap)
            ==> ctrl_outcome(s, control) == (s, Err::<(), ParseError>(ParseError)),
        s.len() == 1 && control is Swap ==> ctrl_outcome(s, control) == (Seq::<T>::empty(), Err::<(), ParseError>(ParseError)),
{
    if s.len() == 1 {
        assert(s.drop_last() =~= Seq::<T>::empty());
    }
}

/// Evaluates the reverse-Polish-notation calculation described by
/// `operations`, starting from `stack`, and returns what is left on the stack.
pub fn calculator<T: Arithmetic>(operations: Vec<Token<T>>, stack: Vec<T>) -> (r: Result<Vec<T>, CalcError>)
    ensures
        match r {
            Ok(v) => evaluate(operations@, stack@) == Ok::<Seq<T>, CalcError>(v@),
            Err(e) => evaluate(operations@, stack@) == Err::<Seq<T>, CalcError>(e),
        },
{
    let ghost ops = operations@;
    let mut current = stack;
    assert(ops.skip(0) =~= ops);
    for token in it: operations
        invariant
            it.seq() == ops,
            evaluate(ops, stack@) == evaluate(ops.skip(it.index() as int), current@),
    {
        let ghost i = it.index() as int;
        assert(ops.skip(i).drop_first() =~= ops.skip(i + 1));
        match token {
            Token::Op(operation) => match handle_op(&mut current, operation) {
                Ok(()) => {},
                Err(e) => return Err(e),
            },
            Token::Ctrl(control) => match handle_ctrl(&mut current, control) {
                Ok(()) => {},
                Err(e) => return Err(CalcError::Parse(e)),
            },
            Token::Num(num) => current.push(num),
        };
    }
    assert(ops.skip(ops.len() as int) =~= Seq::<Token<T>>::empty());
    Ok(current)
}

/// Applies `op` to the top of `stack`.
pub fn handle_op<T: Arithmetic>(stack: &mut Vec<T>, op: Operator) -> (r: Result<(), CalcError>)
    ensures
        (final(stack)@, r) == op_outcome(old(stack)@, op),
{
    let mut top = match stack.pop() {
        Some(x) => x,
        None => return Err(CalcError::Parse(ParseError)),
    };
    let res = match op {
        Operator::Sqrt => top.sqrt(),
        Operator::Negate => top.negate(),
        Operator::Add | Operator::Subtract | Operator::Multiply | Operator::Divide | Operator::Mod
        | Operator::Pow => {
            let mut lhs = match stack.pop() {
                Some(x) => x,
                None => return Err(CalcError::Parse(ParseError)),
            };
            let res = match op {
                Operator::Add => lhs.add(top),
                Operator::Subtract => lhs.subtract(top),
                Operator::Multiply => lhs.multiply(top),
                Operator::Divide => lhs.divide(top),
                Operator::Mod => lhs.modulo(top),
                _ => lhs.pow(top),
            };
            top = lhs;
            res
        },
    };
    match res {
        Ok(()) => {
            stack.push(top);
            Ok(())
        },
        Err(e) => Err(CalcError::Math(e)),
    }
}

/// Applies the control sequence `control` to `stack`.
pub fn handle_ctrl<T: Arithmetic>(stack: &mut Vec<T>, control: Control) -> (r: Result<(), ParseError>)
    ensures
        (final(stack)@, r) == ctrl_outcome(old(stack)@, control),
{
    match control {
        Control::PrintFirst => {
            let n = stack.len();
            if n == 0 {
                Err(ParseError)
            } else {
                stack[n - 1].print();
                Ok(())
            }
        },
        Control::PrintAll => {
            let mut i = stack.len();
            while i > 0
                invariant
                    i <= stack.len(),
                    stack@ == old(stack)@,
                decreases i,
            {
                i -= 1;
                stack[i].print();
            }
            Ok(())
        },
        Control::Pop => opt_to_err(stack.pop()),
        Control::Clear => {
            stack.clear();
            assert(stack@ =~= Seq::<T>::empty());
            Ok(())
        },
        Control::Duplicate => {
            let n = stack.len();
            if n == 0 {
                Err(ParseError)
            } else {
                let copy = stack[n - 1].duplicate();
                stack.push(copy);
                Ok(())
            }
        },
        Control::Swap => {
            let first = match stack.pop() {
                Some(x) => x,
                None => return Err(ParseError),
            };
            let second = match stack.pop() {
                Some(x) => x,
                None => return Err(ParseError),
            };
            stack.push(first);
            stack.push(second);
            assert(stack@ =~= old(stack)@.subrange(0, old(stack)@.len() - 2).push(first).push(second));
            Ok(())
        },
    }
}

/// `Ok` where `option` holds a value, else a `ParseError`.
pub fn opt_to_err<T>(option: Option<T>) -> (r: Result<(), ParseError>)
    ensures
        r == (if option is Some { Ok::<(), ParseError>(()) } else { Err(ParseError) }),
{
    match option {
        Some(_t) => Ok(()),
        None => Err(ParseError),
    }
}

} // verus!
