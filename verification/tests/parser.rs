use linevm::data_type::Data;
use linevm::data_type::Type;
use linevm::data_type::ValueKind;
use linevm::parser::arithmetic::operator;
use linevm::parser::comparision::compare;
use linevm::parser::decode;
use linevm::parser::function::call;
use linevm::parser::function::end;
use linevm::parser::function::init_block;
use linevm::parser::function::init_function;
use linevm::parser::function::return_value;
use linevm::parser::jump_statement::go_back;
use linevm::parser::jump_statement::go_back_if;
use linevm::parser::jump_statement::goto;
use linevm::parser::jump_statement::goto_if;
use linevm::parser::jump_statement::skip;
use linevm::parser::parse;
use linevm::parser::variable::instruction_create;
use linevm::parser::variable::instruction_set;
use linevm::runtime::ArithmeticOperator;
use linevm::runtime::Instruction;
use linevm::runtime::RelationalOperator;
use linevm::tokeniser::Token;

fn id(name: &str) -> Token {
    Token::Identifier(name.to_string())
}

fn is_variable(value: &ValueKind, name: &str) -> bool {
    matches!(value, ValueKind::Variable(n) if n == name)
}

fn is_integer(value: &ValueKind, expected: i64) -> bool {
    matches!(value, ValueKind::Literal(Data::Integer(i)) if *i == expected)
}

#[test]
fn create_takes_type_then_name() {
    match instruction_create(vec![id("int"), id("x")]) {
        Ok(Instruction::CreateVariable(name, Type::Integer)) => assert_eq!(name, "x"),
        _ => panic!(),
    }
    match instruction_create(vec![id("point"), id("p")]) {
        Ok(Instruction::CreateVariable(name, Type::Struct(type_))) => {
            assert_eq!(name, "p");
            assert_eq!(type_, "point");
        }
        _ => panic!(),
    }
    assert!(instruction_create(vec![id("int")]).is_err());
    assert!(instruction_create(vec![id("int"), Token::Integer(1)]).is_err());
    assert!(instruction_create(vec![Token::Integer(1), id("x")]).is_err());
    assert!(instruction_create(vec![id("int"), id("x"), id("y")]).is_err());
}

#[test]
fn set_takes_name_then_operand() {
    match instruction_set(vec![id("x"), Token::Integer(5)]) {
        Ok(Instruction::SetVariable(name, value)) => {
            assert_eq!(name, "x");
            assert!(is_integer(&value, 5));
        }
        _ => panic!(),
    }
    match instruction_set(vec![id("x"), id("y")]) {
        Ok(Instruction::SetVariable(_, value)) => assert!(is_variable(&value, "y")),
        _ => panic!(),
    }
    assert!(instruction_set(vec![Token::Integer(5), id("x")]).is_err());
    assert!(instruction_set(vec![id("x")]).is_err());
}

#[test]
fn operators_take_three_operands() {
    match operator(vec![id("x"), Token::Integer(3), id("y")], ArithmeticOperator::Add) {
        Ok(Instruction::Arithmetic(ArithmeticOperator::Add, lhs, rhs, destination)) => {
            assert!(is_variable(&lhs, "x"));
            assert!(is_integer(&rhs, 3));
            assert!(is_variable(&destination, "y"));
        }
        _ => panic!(),
    }
    assert!(operator(vec![id("x"), id("y")], ArithmeticOperator::Add).is_err());
    match compare(vec![Token::Boolean(true), Token::Character('c'), id("r")], RelationalOperator::LessThan)
    {
        Ok(Instruction::Compare(RelationalOperator::LessThan, lhs, rhs, destination)) => {
            assert!(matches!(lhs, ValueKind::Literal(Data::Boolean(true))));
            assert!(matches!(rhs, ValueKind::Literal(Data::Character('c'))));
            assert!(is_variable(&destination, "r"));
        }
        _ => panic!(),
    }
    assert!(compare(vec![], RelationalOperator::EqualTo).is_err());
}

#[test]
fn function_head_takes_name_and_parameters() {
    match init_function(vec![id("main")]) {
        Ok(Instruction::Function(name, params)) => {
            assert_eq!(name, "main");
            assert!(params.is_empty());
        }
        _ => panic!(),
    }
    match init_function(vec![id("add"), id("int"), id("a"), id("float"), id("b")]) {
        Ok(Instruction::Function(name, params)) => {
            assert_eq!(name, "add");
            assert_eq!(params.len(), 2);
            assert!(params[0].0 == "a" && matches!(params[0].1, Type::Integer));
            assert!(params[1].0 == "b" && matches!(params[1].1, Type::Float));
        }
        _ => panic!(),
    }
    assert!(init_function(vec![]).is_err());
    assert!(init_function(vec![id("add"), id("int")]).is_err());
    assert!(init_function(vec![Token::Integer(1)]).is_err());
    assert!(init_function(vec![id("add"), id("int"), Token::Integer(1)]).is_err());
}

#[test]
fn parameters_end_at_token_that_is_no_type() {
    let head = init_function(vec![id("f"), id("int"), id("a"), Token::Integer(1), id("b")]);
    match head {
        Ok(Instruction::Function(_, params)) => {
            assert_eq!(params.len(), 1);
            assert_eq!(params[0].0, "a");
        }
        _ => panic!(),
    }
}

#[test]
fn block_end_and_return() {
    assert!(matches!(init_block(vec![id("loop")]), Ok(Instruction::Block(name)) if name == "loop"));
    assert!(init_block(vec![]).is_err());
    assert!(init_block(vec![Token::Integer(1)]).is_err());
    assert!(matches!(end(vec![]), Ok(Instruction::End)));
    assert!(end(vec![id("x")]).is_err());
    match return_value(vec![id("x"), Token::Integer(2)]) {
        Ok(Instruction::Return(values)) => {
            assert_eq!(values.len(), 2);
            assert!(is_variable(&values[0], "x"));
            assert!(is_integer(&values[1], 2));
        }
        _ => panic!(),
    }
    assert!(return_value(vec![]).is_err());
}

#[test]
fn call_takes_any_operands() {
    match call("print".to_string(), vec![Token::String("hi".to_string()), id("x")]) {
        Ok(Instruction::Call(name, arguments)) => {
            assert_eq!(name, "print");
            assert_eq!(arguments.len(), 2);
            assert!(matches!(&arguments[0], ValueKind::Literal(Data::String(s)) if s == "hi"));
            assert!(is_variable(&arguments[1], "x"));
        }
        _ => panic!(),
    }
    assert!(matches!(call("f".to_string(), vec![]), Ok(Instruction::Call(_, a)) if a.is_empty()));
}

#[test]
fn jumps() {
    assert!(matches!(goto(vec![id("b")]), Ok(Instruction::Goto(name)) if name == "b"));
    assert!(goto(vec![]).is_err());
    assert!(goto(vec![Token::Integer(1)]).is_err());
    match goto_if(vec![id("b"), id("c")]) {
        Ok(Instruction::GotoIf(name, condition)) => {
            assert_eq!(name, "b");
            assert!(is_variable(&condition, "c"));
        }
        _ => panic!(),
    }
    assert!(goto_if(vec![id("b")]).is_err());
    assert!(goto_if(vec![Token::Boolean(true), id("b")]).is_err());
    assert!(matches!(go_back(vec![]), Ok(Instruction::GoBack)));
    assert!(go_back(vec![id("x")]).is_err());
    assert!(matches!(
        go_back_if(vec![Token::Boolean(false)]),
        Ok(Instruction::GoBackIf(ValueKind::Literal(Data::Boolean(false))))
    ));
    assert!(go_back_if(vec![]).is_err());
}

#[test]
fn skip_takes_count_that_is_not_negative() {
    assert!(matches!(skip(vec![Token::Integer(0)]), Ok(Instruction::Skip(0))));
    assert!(matches!(skip(vec![Token::Integer(2)]), Ok(Instruction::Skip(2))));
    assert!(skip(vec![Token::Integer(-1)]).is_err());
    assert!(skip(vec![id("n")]).is_err());
    assert!(skip(vec![]).is_err());
    assert!(skip(vec![Token::Integer(1), Token::Integer(2)]).is_err());
}

#[test]
fn keywords_select_the_instruction() {
    let three = || vec![id("a"), id("b"), id("c")];
    let decoded = |word: &str, arguments: Vec<Token>| decode(word.to_string(), arguments);
    assert!(matches!(decoded("CREATE_VAR", vec![id("int"), id("x")]), Ok(Instruction::CreateVariable(_, _))));
    assert!(matches!(decoded("SET_VAR", vec![id("x"), id("y")]), Ok(Instruction::SetVariable(_, _))));
    assert!(matches!(decoded("EQ", three()), Ok(Instruction::Compare(RelationalOperator::EqualTo, _, _, _))));
    assert!(matches!(decoded("NE", three()), Ok(Instruction::Compare(RelationalOperator::NotEqualTo, _, _, _))));
    assert!(matches!(decoded("LT", three()), Ok(Instruction::Compare(RelationalOperator::LessThan, _, _, _))));
    assert!(matches!(decoded("LE", three()), Ok(Instruction::Compare(RelationalOperator::LessThanEqualTo, _, _, _))));
    assert!(matches!(decoded("GT", three()), Ok(Instruction::Compare(RelationalOperator::GreaterThan, _, _, _))));
    assert!(matches!(decoded("GE", three()), Ok(Instruction::Compare(RelationalOperator::GreaterThanEqualTo, _, _, _))));
    assert!(matches!(decoded("ADD", three()), Ok(Instruction::Arithmetic(ArithmeticOperator::Add, _, _, _))));
    assert!(matches!(decoded("SUB", three()), Ok(Instruction::Arithmetic(ArithmeticOperator::Subtract, _, _, _))));
    assert!(matches!(decoded("MUL", three()), Ok(Instruction::Arithmetic(ArithmeticOperator::Multiply, _, _, _))));
    assert!(matches!(decoded("DIV", three()), Ok(Instruction::Arithmetic(ArithmeticOperator::Divide, _, _, _))));
    assert!(matches!(decoded("REM", three()), Ok(Instruction::Arithmetic(ArithmeticOperator::Remainder, _, _, _))));
    assert!(matches!(decoded("GOTO", vec![id("b")]), Ok(Instruction::Goto(_))));
    assert!(matches!(decoded("GOTO_IF", vec![id("b"), id("c")]), Ok(Instruction::GotoIf(_, _))));
    assert!(matches!(decoded("GO_BACK", vec![]), Ok(Instruction::GoBack)));
    assert!(matches!(decoded("GO_BACK_IF", vec![id("c")]), Ok(Instruction::GoBackIf(_))));
    assert!(matches!(decoded("SKIP", vec![Token::Integer(1)]), Ok(Instruction::Skip(1))));
    assert!(matches!(decoded("FUNC", vec![id("f")]), Ok(Instruction::Function(_, _))));
    assert!(matches!(decoded("BLOCK", vec![id("b")]), Ok(Instruction::Block(_))));
    assert!(matches!(decoded("END", vec![]), Ok(Instruction::End)));
    assert!(matches!(decoded("RETURN", vec![id("x")]), Ok(Instruction::Return(_))));
    assert!(matches!(decoded("print", three()), Ok(Instruction::Call(name, _)) if name == "print"));
    assert!(matches!(decoded("add", three()), Ok(Instruction::Call(name, _)) if name == "add"));
    assert!(decoded("END", three()).is_err());
}

#[test]
fn program_is_decoded_line_by_line() {
    let lines = vec![
        vec![id("FUNC"), id("main")],
        vec![id("CREATE_VAR"), id("int"), id("x")],
        vec![id("END")],
    ];
    let program = parse(lines).unwrap();
    assert_eq!(program.len(), 3);
    assert!(matches!(&program[0], Instruction::Function(name, _) if name == "main"));
    assert!(matches!(&program[1], Instruction::CreateVariable(_, Type::Integer)));
    assert!(matches!(&program[2], Instruction::End));
    assert!(matches!(parse(vec![]), Ok(program) if program.is_empty()));
}

#[test]
fn first_bad_line_is_reported() {
    let lines = vec![
        vec![id("FUNC"), id("main")],
        vec![Token::Integer(1), id("x")],
        vec![id("END"), id("x")],
    ];
    assert_eq!(parse(lines).err(), Some(1));
    assert_eq!(parse(vec![vec![id("END")], vec![]]).err(), Some(1));
    assert_eq!(parse(vec![vec![id("END")], vec![id("END")], vec![id("SKIP")]]).err(), Some(2));
}
