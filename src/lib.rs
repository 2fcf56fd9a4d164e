//! Core of a reverse-Polish-notation desk calculator: a tokenizer that turns
//! text into tokens, and a stack machine that evaluates them over any numeric
//! type implementing [`number::Arithmetic`].

pub mod calculator;
pub mod integer;
pub mod number;
pub mod parser;

pub use calculator::{calculator, CalcError, ParseError};
pub use integer::Integer128;
pub use number::{Arithmetic, Control, MathError, Operator, Token};
pub use parser::parse_int64;
