//! The operators that instructions name.
use vstd::prelude::*;

verus! {

/// The operators of the arithmetic instructions.
#[derive(Clone, Copy, PartialEq, Eq, Structural)]
pub enum ArithmeticOperator {
    Add,
    Subtract,
    Multiply,
    Divide,
    Remainder,
}

/// The operators of the comparison instructions.
#[derive(Clone, Copy, PartialEq, Eq, Structural)]
pub enum RelationalOperator {
    EqualTo,
    NotEqualTo,
    LessThan,
    LessThanEqualTo,
    GreaterThan,
    GreaterThanEqualTo,
}

/// The operators on the bits of integers.
#[derive(Clone, Copy, PartialEq, Eq, Structural)]
pub enum BitwiseOperator {
    BitwiseAnd,
    BitwiseOr,
    BitwiseXor,
    BitwiseNot,
    BitwiseLeftShift,
    BitwiseRightShift,
}

/// The operators on booleans.
#[derive(Clone, Copy, PartialEq, Eq, Structural)]
pub enum LogicalOperator {
    And,
    Or,
    Not,
}

} // verus!
