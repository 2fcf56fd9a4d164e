//! A bounded signed integer implementation of the arithmetic capability set,
//! on `i128` with every operation checked.

use std::io::Write;
use vstd::arithmetic::power::pow;
use vstd::prelude::*;

use crate::calculator::{binary_value, evaluate, lemma_two_operands, CalcError};
use crate::number::{Arithmetic, MathError, Operator, Token};

verus! {

/// A signed 128-bit integer whose operations report overflow instead of
/// wrapping.
#[derive(Clone, Copy, Debug, PartialEq, Eq, Structural)]
pub struct Integer128 {
    pub value: i128,
}

/// Whether `v` is representable as an `i128`.
pub open spec fn fits_i128(v: int) -> bool {
    i128::MIN <= v <= i128::MAX
}

/// `Some(v)` as an `Integer128` where `v` is representable, else `None`.
pub open spec fn checked(v: int) -> Option<Integer128> {
    if fits_i128(v) {
        Some(Integer128 { value: v as i128 })
    } else {
        None
    }
}

/// Relies on `i128::checked_pow`: `base` to the power `exp`, or `None` where
/// that overflows `i128`.
#[verifier::external_body]
fn checked_pow_i128(base: i128, exp: u32) -> (r: Option<i128>)
    ensures
        fits_i128(pow(base as int, exp as nat)) ==> r == Some(pow(base as int, exp as nat) as i128),
        !fits_i128(pow(base as int, exp as nat)) ==> r is None,
{
    base.checked_pow(exp)
}

/// Relies on `writeln!` to standard output: shows `v` in decimal on a line of
/// its own. A failed write is ignored, as printing is an observation only.
#[verifier::external_body]
fn print_i128(v: i128) {
    let _ = writeln!(std::io::stdout(), "{}", v);
}

impl Arithmetic for Integer128 {
    open spec fn spec_add(self, num: Self) -> Option<Self> {
        checked(self.value + num.value)
    }

    open spec fn spec_subtract(self, num: Self) -> Option<Self> {
        checked(self.value - num.value)
    }

    open spec fn spec_multiply(self, num: Self) -> Option<Self> {
        checked(self.value * num.value)
    }

    /// Division rounds toward zero; dividing by zero fails.
    open spec fn spec_divide(self, num: Self) -> Option<Self> {
        match self.value.checked_div(num.value) {
            Some(v) => Some(Integer128 { value: v }),
            None => None,
        }
    }

    /// The remainder takes the sign of `self`; modulo zero fails.
    open spec fn spec_modulo(self, num: Self) -> Option<Self> {
        match self.value.checked_rem(num.value) {
            Some(v) => Some(Integer128 { value: v }),
            None => None,
        }
    }

    /// The exponent must lie in the range of `u32`.
    open spec fn spec_pow(self, num: Self) -> Option<Self> {
        if 0 <= num.value <= u32::MAX {
            checked(pow(self.value as int, num.value as nat))
        } else {
            None
        }
    }

    /// An integer type has no square roots in general: this always fails.
    open spec fn spec_sqrt(self) -> Option<Self> {
        None
    }

    /// Fails only on `i128::MIN`, whose negation is out of range.
    open spec fn spec_negate(self) -> Option<Self> {
        checked(-self.value)
    }

    fn add(&mut self, num: Integer128) -> (r: Result<(), MathError>) {
        match self.value.checked_add(num.value) {
            Some(val) => {
                self.value = val;
                Ok(())
            },
            None => Err(MathError),
        }
    }

    fn subtract(&mut self, num: Self) -> (r: Result<(), MathError>) {
        match self.value.checked_sub(num.value) {
            Some(val) => {
                self.value = val;
                Ok(())
            },
            None => Err(MathError),
        }
    }

    fn multiply(&mut self, num: Self) -> (r: Result<(), MathError>) {
        match self.value.checked_mul(num.value) {
            Some(val) => {
                self.value = val;
                Ok(())
            },
            None => Err(MathError),
        }
    }

    fn divide(&mut self, num: Self) -> (r: Result<(), MathError>) {
        match self.value.checked_div(num.value) {
            Some(val) => {
                self.value = val;
                Ok(())
            },
            None => Err(MathError),
        }
    }

    fn modulo(&mut self, num: Self) -> (r: Result<(), MathError>) {
        match self.value.checked_rem(num.value) {
            Some(val) => {
                self.value = val;
                Ok(())
            },
            None => Err(MathError),
        }
    }

    fn pow(&mut self, num: Self) -> (r: Result<(), MathError>) {
        if num.value < 0 || num.value > u32::MAX as i128 {
            return Err(MathError);
        }
        match checked_pow_i128(self.value, num.value as u32) {
            Some(result) => {
                self.value = result;
                Ok(())
            },
            None => Err(MathError),
        }
    }

    fn sqrt(&mut self) -> (r: Result<(), MathError>) {
        Err(MathError)
    }

    fn negate(&mut self) -> (r: Result<(), MathError>) {
        if self.value == i128::MIN {
            Err(MathError)
        } else {
            self.value = -self.value;
            Ok(())
        }
    }

    fn duplicate(&self) -> (r: Self) {
        Integer128 { value: self.value }
    }

    fn print(&self) {
        print_i128(self.value);
    }
}

/// An addition, a subtraction or a multiplication whose exact result lies
/// outside the range of `i128` fails with a `MathError`: no wrapped or
/// truncated value ever reaches the stack.
pub proof fn lemma_overflow_fails(a: Integer128, b: Integer128, op: Operator)
    requires
        (op is Add && !fits_i128(a.value + b.value))
            || (op is Subtract && !fits_i128(a.value - b.value))
            || (op is Multiply && !fits_i128(a.value * b.value)),
    ensures
        binary_value(op, a, b) is None,
        evaluate(seq![Token::Num(a), Token::Num(b), Token::Op(op)], Seq::empty())
            == Err::<Seq<Integer128>, CalcError>(CalcError::Math(MathError)),
{
    lemma_two_operands(a, b, op);
}

impl Integer128 {
    /// An `Integer128` holding `num`.
    pub fn new(num: i128) -> (r: Integer128)
        ensures
            r.value == num,
    {
        Integer128 { value: num }
    }
}

} // verus!
