//! `EQ`, `NE`, `LT`, `LE`, `GT` and `GE`.
use super::operand;
use super::spec_operand;
use crate::runtime::operators::RelationalOperator;
use crate::runtime::Instruction;
use crate::runtime::SpecInstruction;
use crate::tokeniser::SpecToken;
use crate::tokeniser::Token;
use vstd::prelude::*;

verus! {

/// A comparison instruction: the two operands and the destination.
pub open spec fn spec_compare(arguments: Seq<SpecToken>, comparision: RelationalOperator) -> Option<
    SpecInstruction,
> {
    if arguments.len() != 3 {
        None
    } else {
        Some(
            SpecInstruction::Compare(
                comparision,
                spec_operand(arguments[0]),
                spec_operand(arguments[1]),
                spec_operand(arguments[2]),
            ),
        )
    }
}

/// Decodes the arguments of a comparison instruction.
pub fn compare(arguments: Vec<Token>, comparision: RelationalOperator) -> (instruction: Result<
    Instruction,
    (),
>)
    ensures
        spec_compare(arguments.deep_view(), comparision) == match instruction {
            Ok(instruction) => Some(instruction@),
            Err(()) => None,
        },
{
    if arguments.len() != 3 {
        return Err(());
    }
    assert(arguments.deep_view()[0] == arguments[0]@);
    assert(arguments.deep_view()[1] == arguments[1]@);
    assert(arguments.deep_view()[2] == arguments[2]@);
    let lhs = operand(&arguments[0]);
    let rhs = operand(&arguments[1]);
    let assign_to = operand(&arguments[2]);
    Ok(Instruction::Compare(comparision, lhs, rhs, assign_to))
}

} // verus!
