//! `CREATE_VAR` and `SET_VAR`.
use super::identifier;
use super::operand;
use super::spec_identifier;
use super::spec_operand;
use crate::data_type::types::type_named;
use crate::data_type::Type;
use crate::runtime::Instruction;
use crate::runtime::SpecInstruction;
use crate::tokeniser::SpecToken;
use crate::tokeniser::Token;
use vstd::prelude::*;

verus! {

/// `CREATE_VAR type name`: two identifiers.
pub open spec fn spec_instruction_create(arguments: Seq<SpecToken>) -> Option<SpecInstruction> {
    if arguments.len() != 2 {
        None
    } else {
        match (spec_identifier(arguments[0]), spec_identifier(arguments[1])) {
            (Some(type_), Some(name)) => Some(
                SpecInstruction::CreateVariable(name, type_named(type_)),
            ),
            _ => None,
        }
    }
}

/// `SET_VAR name value`: an identifier and an operand.
pub open spec fn spec_instruction_set(arguments: Seq<SpecToken>) -> Option<SpecInstruction> {
    if arguments.len() != 2 {
        None
    } else {
        match spec_identifier(arguments[0]) {
            Some(name) => Some(SpecInstruction::SetVariable(name, spec_operand(arguments[1]))),
            None => None,
        }
    }
}

/// Decodes the arguments of `CREATE_VAR`.
pub fn instruction_create(arguments: Vec<Token>) -> (instruction: Result<Instruction, ()>)
    ensures
        spec_instruction_create(arguments.deep_view()) == match instruction {
            Ok(instruction) => Some(instruction@),
            Err(()) => None,
        },
{
    if arguments.len() != 2 {
        return Err(());
    }
    assert(arguments.deep_view()[0] == arguments[0]@);
    assert(arguments.deep_view()[1] == arguments[1]@);
    match (identifier(&arguments[0]), identifier(&arguments[1])) {
        (Some(type_), Some(name)) => Ok(
            Instruction::CreateVariable(name, Type::from_name(type_.as_str())),
        ),
        _ => Err(()),
    }
}

/// Decodes the arguments of `SET_VAR`.
pub fn instruction_set(arguments: Vec<Token>) -> (instruction: Result<Instruction, ()>)
    ensures
        spec_instruction_set(arguments.deep_view()) == match instruction {
            Ok(instruction) => Some(instruction@),
            Err(()) => None,
        },
{
    if arguments.len() != 2 {
        return Err(());
    }
    assert(arguments.deep_view()[0] == arguments[0]@);
    assert(arguments.deep_view()[1] == arguments[1]@);
    match identifier(&arguments[0]) {
        Some(name) => Ok(Instruction::SetVariable(name, operand(&arguments[1]))),
        None => Err(()),
    }
}

} // verus!
