//! `ADD`, `SUB`, `MUL`, `DIV` and `REM`.
use super::operand;
use super::spec_operand;
use crate::runtime::operators::ArithmeticOperator;
use crate::runtime::Instruction;
use crate::runtime::SpecInstruction;
use crate::tokeniser::SpecToken;
use crate::tokeniser::Token;
use vstd::prelude::*;

verus! {

/// An arithmetic instruction: the two operands and the destination.
pub open spec fn spec_operator(arguments: Seq<SpecToken>, operator: ArithmeticOperator) -> Option<
    SpecInstruction,
> {
    if arguments.len() != 3 {
        None
    } else {
        Some(
            SpecInstruction::Arithmetic(
                operator,
                spec_operand(arguments[0]),
                spec_operand(arguments[1]),
                spec_operand(arguments[2]),
            ),
        )
    }
}

/// Decodes the arguments of an arithmetic instruction.
pub fn operator(arguments: Vec<Token>, operation: ArithmeticOperator) -> (instruction: Result<
    Instruction,
    (),
>)
    ensures
        spec_operator(arguments.deep_view(), operation) == match instruction {
            Ok(instruction) => Some(instruction@),
            Err(()) => None,
        },
{
    if arguments.len() != 3 {
        return Err(());
    }
    assert(arguments.deep_view()[0] == arguments[0]@);
    assert(arguments.deep_view()[1] == arguments[1]@);
    assert(arguments.deep_view()[2] == arguments[2]@);
    let lhs = operand(&arguments[0]);
    let rhs = operand(&arguments[1]);
    let assign_to = operand(&arguments[2]);
    Ok(Instruction::Arithmetic(operation, lhs, rhs, assign_to))
}

} // verus!
