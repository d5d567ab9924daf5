//! The decoder: from the tokens of a line to an instruction.
//!
//! The first token of a line is a keyword, the others are its arguments. A
//! line whose first token is an identifier but no keyword is a call of the
//! function of that name.
use crate::data_type::Data;
use crate::data_type::SpecData;
use crate::data_type::SpecValueKind;
use crate::data_type::ValueKind;
use crate::runtime::operators::ArithmeticOperator;
use crate::runtime::operators::RelationalOperator;
use crate::runtime::Instruction;
use crate::runtime::SpecInstruction;
use crate::text::str_eq;
use crate::tokeniser::SpecToken;
use crate::tokeniser::Token;
use vstd::prelude::*;

pub mod arithmetic;
pub mod comparision;
pub mod function;
pub mod jump_statement;
pub mod variable;

verus! {

/// The operand that a token stands for: an identifier names a variable,
/// every other token is a literal.
pub open spec fn spec_operand(token: SpecToken) -> SpecValueKind {
    match token {
        SpecToken::Identifier(name) => SpecValueKind::Variable(name),
        SpecToken::Integer(i) => SpecValueKind::Literal(SpecData::Integer(i)),
        SpecToken::Boolean(b) => SpecValueKind::Literal(SpecData::Boolean(b)),
        SpecToken::Float(bits) => SpecValueKind::Literal(SpecData::Float(bits)),
        SpecToken::Character(c) => SpecValueKind::Literal(SpecData::Character(c)),
        SpecToken::String(text) => SpecValueKind::Literal(SpecData::String(text)),
    }
}

/// The operands that the tokens stand for.
pub open spec fn spec_operands(tokens: Seq<SpecToken>) -> Seq<SpecValueKind> {
    Seq::new(tokens.len(), |i: int| spec_operand(tokens[i]))
}

/// The name that a token holds, if it is an identifier.
pub open spec fn spec_identifier(token: SpecToken) -> Option<Seq<char>> {
    match token {
        SpecToken::Identifier(name) => Some(name),
        _ => None,
    }
}

/// The operand that a token stands for.
pub fn operand(token: &Token) -> (value: ValueKind)
    ensures
        value@ == spec_operand(token@),
{
    match token {
        Token::Identifier(name) => ValueKind::Variable(name.clone()),
        Token::Integer(i) => ValueKind::Literal(Data::Integer(*i)),
        Token::Boolean(b) => ValueKind::Literal(Data::Boolean(*b)),
        Token::Float(bits) => ValueKind::Literal(Data::Float(*bits)),
        Token::Character(c) => ValueKind::Literal(Data::Character(*c)),
        Token::String(text) => ValueKind::Literal(Data::String(text.clone())),
    }
}

/// The operands that the tokens stand for.
pub fn operands(tokens: &Vec<Token>) -> (values: Vec<ValueKind>)
    ensures
        values.deep_view() == spec_operands(tokens.deep_view()),
{
    let mut values: Vec<ValueKind> = Vec::new();
    let mut index: usize = 0;
    while index < tokens.len()
        invariant
            index <= tokens.len(),
            values.len() == index,
            forall|i: int| 0 <= i < index ==> values[i]@ == spec_operand(#[trigger] tokens[i]@),
        decreases tokens.len() - index,
    {
        values.push(operand(&tokens[index]));
        index += 1;
    }
    assert(values.deep_view() =~= spec_operands(tokens.deep_view()));
    values
}

/// The name that a token holds, if it is an identifier.
pub fn identifier(token: &Token) -> (name: Option<String>)
    ensures
        spec_identifier(token@) == match name {
            Some(name) => Some(name@),
            None => None,
        },
{
    match token {
        Token::Identifier(name) => Some(name.clone()),
        _ => None,
    }
}

/// The instruction that a keyword and its arguments stand for.
pub open spec fn spec_decode(keyword: Seq<char>, arguments: Seq<SpecToken>) -> Option<
    SpecInstruction,
> {
    if keyword == "CREATE_VAR"@ {
        variable::spec_instruction_create(arguments)
    } else if keyword == "SET_VAR"@ {
        variable::spec_instruction_set(arguments)
    } else if keyword == "EQ"@ {
        comparision::spec_compare(arguments, RelationalOperator::EqualTo)
    } else if keyword == "NE"@ {
        comparision::spec_compare(arguments, RelationalOperator::NotEqualTo)
    } else if keyword == "LT"@ {
        comparision::spec_compare(arguments, RelationalOperator::LessThan)
    } else if keyword == "LE"@ {
        comparision::spec_compare(arguments, RelationalOperator::LessThanEqualTo)
    } else if keyword == "GT"@ {
        comparision::spec_compare(arguments, RelationalOperator::GreaterThan)
    } else if keyword == "GE"@ {
        comparision::spec_compare(arguments, RelationalOperator::GreaterThanEqualTo)
    } else if keyword == "ADD"@ {
        arithmetic::spec_operator(arguments, ArithmeticOperator::Add)
    } else if keyword == "SUB"@ {
        arithmetic::spec_operator(arguments, ArithmeticOperator::Subtract)
    } else if keyword == "MUL"@ {
        arithmetic::spec_operator(arguments, ArithmeticOperator::Multiply)
    } else if keyword == "DIV"@ {
        arithmetic::spec_operator(arguments, ArithmeticOperator::Divide)
    } else if keyword == "REM"@ {
        arithmetic::spec_operator(arguments, ArithmeticOperator::Remainder)
    } else if keyword == "GOTO"@ {
        jump_statement::spec_goto(arguments)
    } else if keyword == "GOTO_IF"@ {
        jump_statement::spec_goto_if(arguments)
    } else if keyword == "GO_BACK"@ {
        jump_statement::spec_go_back(arguments)
    } else if keyword == "GO_BACK_IF"@ {
        jump_statement::spec_go_back_if(arguments)
    } else if keyword == "SKIP"@ {
        jump_statement::spec_skip(arguments)
    } else if keyword == "FUNC"@ {
        function::spec_init_function(arguments)
    } else if keyword == "BLOCK"@ {
        function::spec_init_block(arguments)
    } else if keyword == "END"@ {
        function::spec_end(arguments)
    } else if keyword == "RETURN"@ {
        function::spec_return_value(arguments)
    } else {
        function::spec_call(keyword, arguments)
    }
}

/// The instruction that the tokens of a line stand for. The first token
/// must be an identifier: the keyword.
pub open spec fn spec_parse_line(line: Seq<SpecToken>) -> Option<SpecInstruction> {
    if line.len() == 0 {
        None
    } else {
        match spec_identifier(line.first()) {
            Some(keyword) => spec_decode(keyword, line.drop_first()),
            None => None,
        }
    }
}

/// The instructions that the lines stand for; if a line stands for none,
/// the index of the first such line.
pub open spec fn spec_parse(lines: Seq<Seq<SpecToken>>) -> Result<Seq<SpecInstruction>, nat>
    decreases lines.len(),
{
    if lines.len() == 0 {
        Ok(Seq::empty())
    } else {
        match spec_parse(lines.drop_last()) {
            Err(index) => Err(index),
            Ok(instructions) => match spec_parse_line(lines.last()) {
                Some(instruction) => Ok(instructions.push(instruction)),
                None => Err((lines.len() - 1) as nat),
            },
        }
    }
}

/// The instruction that a keyword and its arguments stand for.
pub fn decode(keyword: String, arguments: Vec<Token>) -> (instruction: Result<Instruction, ()>)
    ensures
        spec_decode(keyword@, arguments.deep_view()) == match instruction {
            Ok(instruction) => Some(instruction@),
            Err(()) => None,
        },
{
    let word = keyword.as_str();
    if str_eq(word, "CREATE_VAR") {
        variable::instruction_create(arguments)
    } else if str_eq(word, "SET_VAR") {
        variable::instruction_set(arguments)
    } else if str_eq(word, "EQ") {
        comparision::compare(arguments, RelationalOperator::EqualTo)
    } else if str_eq(word, "NE") {
        comparision::compare(arguments, RelationalOperator::NotEqualTo)
    } else if str_eq(word, "LT") {
        comparision::compare(arguments, RelationalOperator::LessThan)
    } else if str_eq(word, "LE") {
        comparision::compare(arguments, RelationalOperator::LessThanEqualTo)
    } else if str_eq(word, "GT") {
        comparision::compare(arguments, RelationalOperator::GreaterThan)
    } else if str_eq(word, "GE") {
        comparision::compare(arguments, RelationalOperator::GreaterThanEqualTo)
    } else if str_eq(word, "ADD") {
        arithmetic::operator(arguments, ArithmeticOperator::Add)
    } else if str_eq(word, "SUB") {
        arithmetic::operator(arguments, ArithmeticOperator::Subtract)
    } else if str_eq(word, "MUL") {
        arithmetic::operator(arguments, ArithmeticOperator::Multiply)
    } else if str_eq(word, "DIV") {
        arithmetic::operator(arguments, ArithmeticOperator::Divide)
    } else if str_eq(word, "REM") {
        arithmetic::operator(arguments, ArithmeticOperator::Remainder)
    } else if str_eq(word, "GOTO") {
        jump_statement::goto(arguments)
    } else if str_eq(word, "GOTO_IF") {
        jump_statement::goto_if(arguments)
    } else if str_eq(word, "GO_BACK") {
        jump_statement::go_back(arguments)
    } else if str_eq(word, "GO_BACK_IF") {
        jump_statement::go_back_if(arguments)
    } else if str_eq(word, "SKIP") {
        jump_statement::skip(arguments)
    } else if str_eq(word, "FUNC") {
        function::init_function(arguments)
    } else if str_eq(word, "BLOCK") {
        function::init_block(arguments)
    } else if str_eq(word, "END") {
        function::end(arguments)
    } else if str_eq(word, "RETURN") {
        function::return_value(arguments)
    } else {
        function::call(keyword, arguments)
    }
}

/// The instruction that the tokens of a line stand for.
pub fn parse_line(line: &Vec<Token>) -> (instruction: Result<Instruction, ()>)
    ensures
        spec_parse_line(line.deep_view()) == match instruction {
            Ok(instruction) => Some(instruction@),
            Err(()) => None,
        },
{
    if line.len() == 0 {
        return Err(());
    }
    assert(line.deep_view().first() == line[0]@);
    let keyword = match identifier(&line[0]) {
        Some(keyword) => keyword,
        None => return Err(()),
    };
    let mut arguments: Vec<Token> = Vec::new();
    let mut index: usize = 1;
    while index < line.len()
        invariant
            1 <= index <= line.len(),
            arguments.len() == index - 1,
            forall|i: int| 0 <= i < index - 1 ==> arguments[i]@ == #[trigger] line[i + 1]@,
        decreases line.len() - index,
    {
        arguments.push(crate::tokeniser::copy_of(&line[index]));
        index += 1;
    }
    assert(arguments.deep_view() =~= line.deep_view().drop_first());
    decode(keyword, arguments)
}

/// The instructions of a program, from the tokens of its lines.
pub fn parse(tokens: Vec<Vec<Token>>) -> (instructions: Result<Vec<Instruction>, usize>)
    ensures
        spec_parse(tokens.deep_view()) == match instructions {
            Ok(instructions) => Ok(instructions.deep_view()),
            Err(index) => Err(index as nat),
        },
{
    let ghost lines = tokens.deep_view();
    let mut instructions: Vec<Instruction> = Vec::new();
    let mut idx: usize = 0;
    assert(lines.take(0) =~= Seq::<Seq<SpecToken>>::empty());
    assert(instructions.deep_view() =~= Seq::<SpecInstruction>::empty());
    while idx < tokens.len()
        invariant
            idx <= tokens.len(),
            lines == tokens.deep_view(),
            lines.len() == tokens.len(),
            spec_parse(lines.take(idx as int)) == Ok::<Seq<SpecInstruction>, nat>(
                instructions.deep_view(),
            ),
        decreases tokens.len() - idx,
    {
        let ghost before = instructions.deep_view();
        proof {
            assert(lines[idx as int] == tokens[idx as int].deep_view());
            assert(lines.take(idx + 1).drop_last() =~= lines.take(idx as int));
            assert(lines.take(idx + 1).last() == lines[idx as int]);
        }
        match parse_line(&tokens[idx]) {
            Ok(instruction) => {
                instructions.push(instruction);
                assert(instructions.deep_view() =~= before.push(instruction@));
            },
            Err(()) => {
                proof {
                    lemma_parse_fails(lines, idx as nat + 1);
                }
                return Err(idx);
            },
        }
        idx += 1;
    }
    assert(lines.take(idx as int) =~= lines);
    Ok(instructions)
}

/// Once one of the first `count` lines stands for no instruction, the
/// program is refused at that line.
proof fn lemma_parse_fails(lines: Seq<Seq<SpecToken>>, count: nat)
    requires
        count <= lines.len(),
        spec_parse(lines.take(count as int)) is Err,
    ensures
        spec_parse(lines) == spec_parse(lines.take(count as int)),
    decreases lines.len() - count,
{
    if count < lines.len() {
        assert(lines.take(count as int + 1).drop_last() =~= lines.take(count as int));
        lemma_parse_fails(lines, count + 1);
    } else {
        assert(lines.take(count as int) =~= lines);
    }
}

} // verus!
