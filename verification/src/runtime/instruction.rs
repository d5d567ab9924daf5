//! The instructions of a program, and where its functions and blocks begin.
use super::operators::ArithmeticOperator;
use super::operators::RelationalOperator;
use crate::data_type::SpecType;
use crate::data_type::SpecValueKind;
use crate::data_type::Type;
use crate::data_type::ValueKind;
use crate::text::first_index;
use crate::text::lemma_first_index_extends;
use crate::text::str_eq;
use vstd::prelude::*;

verus! {

/// One instruction. A program is a list of them, and each is known by its
/// index in the list.
pub enum Instruction {
    /// The head of a function: its name and its parameters, each a name and
    /// a type. The body follows.
    Function(String, Vec<(String, Type)>),
    /// The head of a block. The body follows.
    Block(String),
    /// Declares a local variable.
    CreateVariable(String, Type),
    /// Assigns the operand to the variable.
    SetVariable(String, ValueKind),
    /// Compares the first two operands and writes the boolean to the third.
    Compare(RelationalOperator, ValueKind, ValueKind, ValueKind),
    /// Computes on the first two operands and writes the result to the third.
    Arithmetic(ArithmeticOperator, ValueKind, ValueKind, ValueKind),
    /// Runs the block of that name, then goes on.
    Goto(String),
    /// Runs the block if the operand is `true`, then goes on.
    GotoIf(String, ValueKind),
    /// Starts the body that it stands in again.
    GoBack,
    /// Starts the body again if the operand is `true`.
    GoBackIf(ValueKind),
    /// Passes over that many of the instructions that follow.
    Skip(usize),
    /// Calls the function of that name. The first arguments are its inputs,
    /// one for each parameter; the others name the variables that receive
    /// what it returns.
    Call(String, Vec<ValueKind>),
    /// Ends a function's invocation with these values.
    Return(Vec<ValueKind>),
    /// Ends the body that it stands in.
    End,
}

/// The mathematical model of an [`Instruction`].
pub enum SpecInstruction {
    Function(Seq<char>, Seq<(Seq<char>, SpecType)>),
    Block(Seq<char>),
    CreateVariable(Seq<char>, SpecType),
    SetVariable(Seq<char>, SpecValueKind),
    Compare(RelationalOperator, SpecValueKind, SpecValueKind, SpecValueKind),
    Arithmetic(ArithmeticOperator, SpecValueKind, SpecValueKind, SpecValueKind),
    Goto(Seq<char>),
    GotoIf(Seq<char>, SpecValueKind),
    GoBack,
    GoBackIf(SpecValueKind),
    Skip(usize),
    Call(Seq<char>, Seq<SpecValueKind>),
    Return(Seq<SpecValueKind>),
    End,
}

/// The mathematical model of a program.
pub type SpecProgram = Seq<SpecInstruction>;

impl View for Instruction {
    type V = SpecInstruction;

    open spec fn view(&self) -> SpecInstruction {
        match self {
            Instruction::Function(name, params) => SpecInstruction::Function(
                name@,
                params.deep_view(),
            ),
            Instruction::Block(name) => SpecInstruction::Block(name@),
            Instruction::CreateVariable(name, type_) => SpecInstruction::CreateVariable(
                name@,
                type_@,
            ),
            Instruction::SetVariable(name, value) => SpecInstruction::SetVariable(name@, value@),
            Instruction::Compare(operator, lhs, rhs, destination) => SpecInstruction::Compare(
                *operator,
                lhs@,
                rhs@,
                destination@,
            ),
            Instruction::Arithmetic(operator, lhs, rhs, destination) => SpecInstruction::Arithmetic(
                *operator,
                lhs@,
                rhs@,
                destination@,
            ),
            Instruction::Goto(block) => SpecInstruction::Goto(block@),
            Instruction::GotoIf(block, condition) => SpecInstruction::GotoIf(block@, condition@),
            Instruction::GoBack => SpecInstruction::GoBack,
            Instruction::GoBackIf(condition) => SpecInstruction::GoBackIf(condition@),
            Instruction::Skip(count) => SpecInstruction::Skip(*count),
            Instruction::Call(name, arguments) => SpecInstruction::Call(
                name@,
                arguments.deep_view(),
            ),
            Instruction::Return(values) => SpecInstruction::Return(values.deep_view()),
            Instruction::End => SpecInstruction::End,
        }
    }
}

impl DeepView for Instruction {
    type V = SpecInstruction;

    open spec fn deep_view(&self) -> SpecInstruction {
        self.view()
    }
}

/// Whether the instruction is the head of the function `name`.
pub open spec fn heads_function(instruction: SpecInstruction, name: Seq<char>) -> bool {
    instruction matches SpecInstruction::Function(function, _) && function == name
}

/// Whether the instruction is the head of the block `name`.
pub open spec fn heads_block(instruction: SpecInstruction, name: Seq<char>) -> bool {
    instruction matches SpecInstruction::Block(block) && block == name
}

/// The index of the head of the function `name`: of the first, if the
/// program has several.
pub open spec fn spec_get_function_index(program: SpecProgram, name: Seq<char>) -> Option<nat> {
    first_index(program, |instruction: SpecInstruction| heads_function(instruction, name))
}

/// The index of the head of the block `name`: of the first, if the program
/// has several.
pub open spec fn spec_get_block_index(program: SpecProgram, name: Seq<char>) -> Option<nat> {
    first_index(program, |instruction: SpecInstruction| heads_block(instruction, name))
}

/// The index of the head of the function `function_name`.
pub fn get_function_index(instructions: &[Instruction], function_name: &str) -> (index: Option<
    usize,
>)
    ensures
        spec_get_function_index(instructions.deep_view(), function_name@) == match index {
            Some(index) => Some(index as nat),
            None => None,
        },
{
    let ghost program = instructions.deep_view();
    let ghost wanted = |instruction: SpecInstruction| heads_function(instruction, function_name@);
    let mut idx: usize = 0;
    assert(program.take(0) =~= Seq::<SpecInstruction>::empty());
    while idx < instructions.len()
        invariant
            idx <= instructions.len(),
            program == instructions.deep_view(),
            program.len() == instructions.len(),
            wanted == (|instruction: SpecInstruction| heads_function(instruction, function_name@)),
            first_index(program.take(idx as int), wanted) is None,
        decreases instructions.len() - idx,
    {
        let found = match &instructions[idx] {
            Instruction::Function(name, _) => str_eq(name.as_str(), function_name),
            _ => false,
        };
        proof {
            assert(program[idx as int] == instructions[idx as int]@);
            assert(found == wanted(program[idx as int]));
            assert(program.take(idx + 1).drop_last() =~= program.take(idx as int));
            if found {
                lemma_first_index_extends(program, wanted, idx as nat + 1);
            }
        }
        if found {
            return Some(idx);
        }
        idx += 1;
    }
    assert(program.take(idx as int) =~= program);
    None
}

/// The index of the head of the block `block_name`.
pub fn get_block_index(instructions: &[Instruction], block_name: &str) -> (index: Option<usize>)
    ensures
        spec_get_block_index(instructions.deep_view(), block_name@) == match index {
            Some(index) => Some(index as nat),
            None => None,
        },
{
    let ghost program = instructions.deep_view();
    let ghost wanted = |instruction: SpecInstruction| heads_block(instruction, block_name@);
    let mut idx: usize = 0;
    assert(program.take(0) =~= Seq::<SpecInstruction>::empty());
    while idx < instructions.len()
        invariant
            idx <= instructions.len(),
            program == instructions.deep_view(),
            program.len() == instructions.len(),
            wanted == (|instruction: SpecInstruction| heads_block(instruction, block_name@)),
            first_index(program.take(idx as int), wanted) is None,
        decreases instructions.len() - idx,
    {
        let found = match &instructions[idx] {
            Instruction::Block(name) => str_eq(name.as_str(), block_name),
            _ => false,
        };
        proof {
            assert(program[idx as int] == instructions[idx as int]@);
            assert(found == wanted(program[idx as int]));
            assert(program.take(idx + 1).drop_last() =~= program.take(idx as int));
            if found {
                lemma_first_index_extends(program, wanted, idx as nat + 1);
            }
        }
        if found {
            return Some(idx);
        }
        idx += 1;
    }
    assert(program.take(idx as int) =~= program);
    None
}

} // verus!
