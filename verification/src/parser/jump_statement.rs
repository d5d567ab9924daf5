//! `GOTO`, `GOTO_IF`, `GO_BACK`, `GO_BACK_IF` and `SKIP`.
use super::identifier;
use super::operand;
use super::spec_identifier;
use super::spec_operand;
use crate::runtime::Instruction;
use crate::runtime::SpecInstruction;
use crate::tokeniser::SpecToken;
use crate::tokeniser::Token;
use vstd::prelude::*;

verus! {

/// `GOTO block`: one identifier.
pub open spec fn spec_goto(arguments: Seq<SpecToken>) -> Option<SpecInstruction> {
    if arguments.len() != 1 {
        None
    } else {
        match spec_identifier(arguments[0]) {
            Some(block) => Some(SpecInstruction::Goto(block)),
            None => None,
        }
    }
}

/// `GOTO_IF block condition`: an identifier and an operand.
pub open spec fn spec_goto_if(arguments: Seq<SpecToken>) -> Option<SpecInstruction> {
    if arguments.len() != 2 {
        None
    } else {
        match spec_identifier(arguments[0]) {
            Some(block) => Some(SpecInstruction::GotoIf(block, spec_operand(arguments[1]))),
            None => None,
        }
    }
}

/// `GO_BACK`, without arguments.
pub open spec fn spec_go_back(arguments: Seq<SpecToken>) -> Option<SpecInstruction> {
    if arguments.len() != 0 {
        None
    } else {
        Some(SpecInstruction::GoBack)
    }
}

/// `GO_BACK_IF condition`: one operand.
pub open spec fn spec_go_back_if(arguments: Seq<SpecToken>) -> Option<SpecInstruction> {
    if arguments.len() != 1 {
        None
    } else {
        Some(SpecInstruction::GoBackIf(spec_operand(arguments[0])))
    }
}

/// `SKIP count`: one integer that is not negative and is an index on this
/// machine.
pub open spec fn spec_skip(arguments: Seq<SpecToken>) -> Option<SpecInstruction> {
    if arguments.len() != 1 {
        None
    } else {
        match arguments[0] {
            SpecToken::Integer(count) => if 0 <= count <= usize::MAX {
                Some(SpecInstruction::Skip(count as usize))
            } else {
                None
            },
            _ => None,
        }
    }
}

/// Decodes the arguments of `GOTO`.
pub fn goto(arguments: Vec<Token>) -> (instruction: Result<Instruction, ()>)
    ensures
        spec_goto(arguments.deep_view()) == match instruction {
            Ok(instruction) => Some(instruction@),
            Err(()) => None,
        },
{
    if arguments.len() != 1 {
        return Err(());
    }
    assert(arguments.deep_view()[0] == arguments[0]@);
    match identifier(&arguments[0]) {
        Some(block_name) => Ok(Instruction::Goto(block_name)),
        None => Err(()),
    }
}

/// Decodes the arguments of `GOTO_IF`.
pub fn goto_if(arguments: Vec<Token>) -> (instruction: Result<Instruction, ()>)
    ensures
        spec_goto_if(arguments.deep_view()) == match instruction {
            Ok(instruction) => Some(instruction@),
            Err(()) => None,
        },
{
    if arguments.len() != 2 {
        return Err(());
    }
    assert(arguments.deep_view()[0] == arguments[0]@);
    assert(arguments.deep_view()[1] == arguments[1]@);
    match identifier(&arguments[0]) {
        Some(block_name) => Ok(Instruction::GotoIf(block_name, operand(&arguments[1]))),
        None => Err(()),
    }
}

/// Decodes the arguments of `GO_BACK`: there must be none.
pub fn go_back(arguments: Vec<Token>) -> (instruction: Result<Instruction, ()>)
    ensures
        spec_go_back(arguments.deep_view()) == match instruction {
            Ok(instruction) => Some(instruction@),
            Err(()) => None,
        },
{
    if arguments.len() != 0 {
        return Err(());
    }
    Ok(Instruction::GoBack)
}

/// Decodes the arguments of `GO_BACK_IF`.
pub fn go_back_if(arguments: Vec<Token>) -> (instruction: Result<Instruction, ()>)
    ensures
        spec_go_back_if(arguments.deep_view()) == match instruction {
            Ok(instruction) => Some(instruction@),
            Err(()) => None,
        },
{
    if arguments.len() != 1 {
        return Err(());
    }
    assert(arguments.deep_view()[0] == arguments[0]@);
    Ok(Instruction::GoBackIf(operand(&arguments[0])))
}

/// Decodes the arguments of `SKIP`.
pub fn skip(arguments: Vec<Token>) -> (instruction: Result<Instruction, ()>)
    ensures
        spec_skip(arguments.deep_view()) == match instruction {
            Ok(instruction) => Some(instruction@),
            Err(()) => None,
        },
{
    if arguments.len() != 1 {
        return Err(());
    }
    assert(arguments.deep_view()[0] == arguments[0]@);
    match &arguments[0] {
        Token::Integer(i) => {
            let count = *i;
            if count < 0 || count as u64 > usize::MAX as u64 {
                Err(())
            } else {
                Ok(Instruction::Skip(count as usize))
            }
        },
        _ => Err(()),
    }
}

} // verus!
