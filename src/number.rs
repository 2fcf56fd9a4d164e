//! The capability set a numeric type needs to be evaluated by the calculator,
//! and the tokens that drive the evaluation.

use vstd::prelude::*;

verus! {

/// An error for when some arithmetic operation cannot produce a representable
/// result: an overflow, a division by zero, an undefined square root, and so on.
#[derive(Debug, Clone, Copy, PartialEq, Eq, Structural)]
pub struct MathError;

impl MathError {
    /// The message that describes this error.
    pub fn message(&self) -> (r: &'static str)
        ensures
            r@ == "An arithmetic error occurred."@,
    {
        "An arithmetic error occurred."
    }
}

/// All of the methods a numeric type must offer to be evaluated by the
/// calculator.
///
/// Each operation is described by a spec function that gives the value it
/// produces, or `None` where the result is not representable. Each executable
/// method succeeds exactly when its spec function gives a value, and then
/// leaves that value in `self`; where it fails, `self` is left unchanged.
pub trait Arithmetic: Sized {
    /// `self + num`, where representable.
    spec fn spec_add(self, num: Self) -> Option<Self>;

    /// `self - num`, where representable.
    spec fn spec_subtract(self, num: Self) -> Option<Self>;

    /// `self * num`, where representable.
    spec fn spec_multiply(self, num: Self) -> Option<Self>;

    /// `self / num`, where representable.
    spec fn spec_divide(self, num: Self) -> Option<Self>;

    /// `self % num`, where representable.
    spec fn spec_modulo(self, num: Self) -> Option<Self>;

    /// `self` raised to the power `num`, where representable.
    spec fn spec_pow(self, num: Self) -> Option<Self>;

    /// The square root of `self`, where representable.
    spec fn spec_sqrt(self) -> Option<Self>;

    /// `-self`, where representable.
    spec fn spec_negate(self) -> Option<Self>;

    /// Adds `num` to the current number.
    fn add(&mut self, num: Self) -> (r: Result<(), MathError>)
        ensures
            r is Ok <==> old(self).spec_add(num) is Some,
            r is Ok ==> Some(*final(self)) == old(self).spec_add(num),
            r is Err ==> *final(self) == *old(self),
    ;

    /// Subtracts `num` from the current number.
    fn subtract(&mut self, num: Self) -> (r: Result<(), MathError>)
        ensures
            r is Ok <==> old(self).spec_subtract(num) is Some,
            r is Ok ==> Some(*final(self)) == old(self).spec_subtract(num),
            r is Err ==> *final(self) == *old(self),
    ;

    /// Multiplies the current number by `num`.
    fn multiply(&mut self, num: Self) -> (r: Result<(), MathError>)
        ensures
            r is Ok <==> old(self).spec_multiply(num) is Some,
            r is Ok ==> Some(*final(self)) == old(self).spec_multiply(num),
            r is Err ==> *final(self) == *old(self),
    ;

    /// Divides the current number by `num`.
    fn divide(&mut self, num: Self) -> (r: Result<(), MathError>)
        ensures
            r is Ok <==> old(self).spec_divide(num) is Some,
            r is Ok ==> Some(*final(self)) == old(self).spec_divide(num),
            r is Err ==> *final(self) == *old(self),
    ;

    /// Replaces the current number by its remainder modulo `num`.
    fn modulo(&mut self, num: Self) -> (r: Result<(), MathError>)
        ensures
            r is Ok <==> old(self).spec_modulo(num) is Some,
            r is Ok ==> Some(*final(self)) == old(self).spec_modulo(num),
            r is Err ==> *final(self) == *old(self),
    ;

    /// Raises the current number to the power `num`.
    fn pow(&mut self, num: Self) -> (r: Result<(), MathError>)
        ensures
            r is Ok <==> old(self).spec_pow(num) is Some,
            r is Ok ==> Some(*final(self)) == old(self).spec_pow(num),
            r is Err ==> *final(self) == *old(self),
    ;

    /// Replaces the current number by its square root.
    fn sqrt(&mut self) -> (r: Result<(), MathError>)
        ensures
            r is Ok <==> old(self).spec_sqrt() is Some,
            r is Ok ==> Some(*final(self)) == old(self).spec_sqrt(),
            r is Err ==> *final(self) == *old(self),
    ;

    /// Flips the sign of the current number.
    fn negate(&mut self) -> (r: Result<(), MathError>)
        ensures
            r is Ok <==> old(self).spec_negate() is Some,
            r is Ok ==> Some(*final(self)) == old(self).spec_negate(),
            r is Err ==> *final(self) == *old(self),
    ;

    /// An independent copy of the number.
    fn duplicate(&self) -> (r: Self)
        ensures
            r == *self,
    ;

    /// Prints the number.
    fn print(&self);
}

/// The arithmetic operations.
#[derive(Clone, Copy, Debug, PartialEq, Eq, Structural)]
pub enum Operator {
    Add,
    Subtract,
    Multiply,
    Divide,
    Mod,
    Pow,
    Sqrt,
    /// Flips the sign of the top of the stack.
    Negate,
}

impl Operator {
    /// Whether the operator takes two operands; the others take one.
    pub open spec fn is_binary(self) -> bool {
        !(self is Sqrt || self is Negate)
    }
}

/// The control sequences: printing, popping, clearing, duplicating and
/// swapping items on the stack.
#[derive(Clone, Copy, Debug, PartialEq, Eq, Structural)]
pub enum Control {
    /// Prints the top item on the stack.
    PrintFirst,
    /// Prints every item on the stack, from the top down.
    PrintAll,
    /// Pops the top item off the stack.
    Pop,
    /// Clears every item from the stack.
    Clear,
    /// Duplicates the top item on the stack.
    Duplicate,
    /// Swaps the top two items on the stack.
    Swap,
}

/// Everything a token can be.
#[derive(Clone, Debug, PartialEq, Eq)]
pub enum Token<T: Arithmetic> {
    Op(Operator),
    Num(T),
    Ctrl(Control),
}

} // verus!
