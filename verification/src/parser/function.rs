//! `FUNC`, `BLOCK`, `END`, `RETURN` and calls.
use super::identifier;
use super::operands;
use super::spec_identifier;
use super::spec_operands;
use crate::data_type::types::type_named;
use crate::data_type::SpecType;
use crate::data_type::Type;
use crate::runtime::Instruction;
use crate::runtime::SpecInstruction;
use crate::tokeniser::SpecToken;
use crate::tokeniser::Token;
use vstd::prelude::*;

verus! {

/// The parameters that the tokens from `from` on declare: pairs of a type
/// and a name, both identifiers. The list ends where a token that is no
/// identifier stands in the place of a type, and what follows there is not
/// read. A type without a name, or with a name that is no identifier, is
/// refused.
pub open spec fn spec_parse_parametres(arguments: Seq<SpecToken>, from: int) -> Option<
    Seq<(Seq<char>, SpecType)>,
>
    decreases arguments.len() - from,
{
    if from < 0 || from >= arguments.len() {
        Some(Seq::empty())
    } else {
        match spec_identifier(arguments[from]) {
            None => Some(Seq::empty()),
            Some(type_) => if from + 1 >= arguments.len() {
                None
            } else {
                match spec_identifier(arguments[from + 1]) {
                    None => None,
                    Some(name) => match spec_parse_parametres(arguments, from + 2) {
                        None => None,
                        Some(rest) => Some(seq![(name, type_named(type_))] + rest),
                    },
                }
            },
        }
    }
}

/// `FUNC name type name ...`: an odd number of tokens, the first the
/// function's name, the others its parameters.
pub open spec fn spec_init_function(arguments: Seq<SpecToken>) -> Option<SpecInstruction> {
    if arguments.len() % 2 == 0 {
        None
    } else {
        match spec_identifier(arguments[0]) {
            None => None,
            Some(name) => match spec_parse_parametres(arguments, 1) {
                None => None,
                Some(params) => Some(SpecInstruction::Function(name, params)),
            },
        }
    }
}

/// `BLOCK name`: one identifier.
pub open spec fn spec_init_block(arguments: Seq<SpecToken>) -> Option<SpecInstruction> {
    if arguments.len() != 1 {
        None
    } else {
        match spec_identifier(arguments[0]) {
            Some(name) => Some(SpecInstruction::Block(name)),
            None => None,
        }
    }
}

/// `END`, without arguments.
pub open spec fn spec_end(arguments: Seq<SpecToken>) -> Option<SpecInstruction> {
    if arguments.len() != 0 {
        None
    } else {
        Some(SpecInstruction::End)
    }
}

/// `RETURN value ...`: at least one operand.
pub open spec fn spec_return_value(arguments: Seq<SpecToken>) -> Option<SpecInstruction> {
    if arguments.len() == 0 {
        None
    } else {
        Some(SpecInstruction::Return(spec_operands(arguments)))
    }
}

/// A call: the operands are the arguments.
pub open spec fn spec_call(function_name: Seq<char>, arguments: Seq<SpecToken>) -> Option<
    SpecInstruction,
> {
    Some(SpecInstruction::Call(function_name, spec_operands(arguments)))
}

/// The parameters that the tokens from the second on declare.
fn parse_parametres(arguments: &Vec<Token>) -> (parametres: Result<Vec<(String, Type)>, ()>)
    requires
        arguments.len() >= 1,
    ensures
        spec_parse_parametres(arguments.deep_view(), 1) == match parametres {
            Ok(parametres) => Some(parametres.deep_view()),
            Err(()) => None,
        },
{
    let ghost tokens = arguments.deep_view();
    let mut parametres: Vec<(String, Type)> = Vec::new();
    let mut index: usize = 1;
    assert(parametres.deep_view() =~= Seq::<(Seq<char>, SpecType)>::empty());
    while index < arguments.len()
        invariant
            1 <= index <= arguments.len() + 1,
            tokens == arguments.deep_view(),
            tokens.len() == arguments.len(),
            spec_parse_parametres(tokens, 1) == match spec_parse_parametres(tokens, index as int) {
                Some(rest) => Some(parametres.deep_view() + rest),
                None => None,
            },
        decreases arguments.len() + 1 - index,
    {
        let ghost before = parametres.deep_view();
        assert(tokens[index as int] == arguments[index as int]@);
        let type_ = match identifier(&arguments[index]) {
            Some(type_) => type_,
            None => {
                assert(before + Seq::<(Seq<char>, SpecType)>::empty() =~= before);
                return Ok(parametres);
            },
        };
        if index + 1 >= arguments.len() {
            return Err(());
        }
        assert(tokens[index + 1] == arguments[index + 1]@);
        let name = match identifier(&arguments[index + 1]) {
            Some(name) => name,
            None => return Err(()),
        };
        let ghost pair = (name@, type_named(type_@));
        parametres.push((name, Type::from_name(type_.as_str())));
        assert(parametres.deep_view() =~= before.push(pair));
        index += 2;
        proof {
            if let Some(rest) = spec_parse_parametres(tokens, index as int) {
                assert(before + (seq![pair] + rest) =~= parametres.deep_view() + rest);
            }
        }
    }
    assert(parametres.deep_view() + Seq::<(Seq<char>, SpecType)>::empty()
        =~= parametres.deep_view());
    Ok(parametres)
}

/// Decodes the arguments of `FUNC`.
pub fn init_function(arguments: Vec<Token>) -> (instruction: Result<Instruction, ()>)
    ensures
        spec_init_function(arguments.deep_view()) == match instruction {
            Ok(instruction) => Some(instruction@),
            Err(()) => None,
        },
{
    if arguments.len() % 2 == 0 {
        return Err(());
    }
    assert(arguments.deep_view()[0] == arguments[0]@);
    let name = match identifier(&arguments[0]) {
        Some(name) => name,
        None => return Err(()),
    };
    match parse_parametres(&arguments) {
        Ok(parametres) => Ok(Instruction::Function(name, parametres)),
        Err(()) => Err(()),
    }
}

/// Decodes the arguments of `BLOCK`.
pub fn init_block(arguments: Vec<Token>) -> (instruction: Result<Instruction, ()>)
    ensures
        spec_init_block(arguments.deep_view()) == match instruction {
            Ok(instruction) => Some(instruction@),
            Err(()) => None,
        },
{
    if arguments.len() != 1 {
        return Err(());
    }
    assert(arguments.deep_view()[0] == arguments[0]@);
    match identifier(&arguments[0]) {
        Some(name) => Ok(Instruction::Block(name)),
        None => Err(()),
    }
}

/// Decodes the arguments of `END`: there must be none.
pub fn end(arguments: Vec<Token>) -> (instruction: Result<Instruction, ()>)
    ensures
        spec_end(arguments.deep_view()) == match instruction {
            Ok(instruction) => Some(instruction@),
            Err(()) => None,
        },
{
    if arguments.len() != 0 {
        return Err(());
    }
    Ok(Instruction::End)
}

/// Decodes the arguments of `RETURN`.
pub fn return_value(arguments: Vec<Token>) -> (instruction: Result<Instruction, ()>)
    ensures
        spec_return_value(arguments.deep_view()) == match instruction {
            Ok(instruction) => Some(instruction@),
            Err(()) => None,
        },
{
    if arguments.len() == 0 {
        return Err(());
    }
    Ok(Instruction::Return(operands(&arguments)))
}

/// Decodes the arguments of a call of `function_name`.
pub fn call(function_name: String, arguments: Vec<Token>) -> (instruction: Result<Instruction, ()>)
    ensures
        spec_call(function_name@, arguments.deep_view()) == match instruction {
            Ok(instruction) => Some(instruction@),
            Err(()) => None,
        },
{
    Ok(Instruction::Call(function_name, operands(&arguments)))
}

} // verus!
