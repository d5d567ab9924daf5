use linevm::data_type::Data;
use linevm::data_type::FloatRequest;
use linevm::data_type::Number;
use linevm::data_type::Operator;
use linevm::data_type::StoredValue;
use linevm::data_type::Type;
use linevm::data_type::ValueKind;
use linevm::runtime::machine::Event;
use linevm::runtime::machine::InbuiltFunction;
use linevm::runtime::machine::Machine;
use linevm::runtime::machine::Status;
use linevm::runtime::ArithmeticOperator;
use linevm::runtime::Fault;
use linevm::runtime::Instruction;
use linevm::runtime::RelationalOperator;
use linevm::runtime::RuntimeError;
use linevm::runtime::Scope;

fn var(name: &str) -> ValueKind {
    ValueKind::Variable(name.to_string())
}

fn integer(value: i64) -> ValueKind {
    ValueKind::Literal(Data::Integer(value))
}

fn float(value: f64) -> ValueKind {
    ValueKind::Literal(Data::Float(value.to_bits()))
}

fn boolean(value: bool) -> ValueKind {
    ValueKind::Literal(Data::Boolean(value))
}

fn function(name: &str, params: &[(&str, Type)]) -> Instruction {
    Instruction::Function(
        name.to_string(),
        params.iter().map(|(name, type_)| (name.to_string(), type_.clone())).collect(),
    )
}

fn create(name: &str, type_: Type) -> Instruction {
    Instruction::CreateVariable(name.to_string(), type_)
}

fn set(name: &str, value: ValueKind) -> Instruction {
    Instruction::SetVariable(name.to_string(), value)
}

fn arithmetic(
    operator: ArithmeticOperator,
    lhs: ValueKind,
    rhs: ValueKind,
    destination: &str,
) -> Instruction {
    Instruction::Arithmetic(operator, lhs, rhs, var(destination))
}

fn compare(
    operator: RelationalOperator,
    lhs: ValueKind,
    rhs: ValueKind,
    destination: &str,
) -> Instruction {
    Instruction::Compare(operator, lhs, rhs, var(destination))
}

fn call(name: &str, arguments: Vec<ValueKind>) -> Instruction {
    Instruction::Call(name.to_string(), arguments)
}

fn as_float(number: Number) -> f64 {
    match number {
        Number::Integer(i) => i as f64,
        Number::Float(bits) => f64::from_bits(bits),
    }
}

fn float_unit(request: FloatRequest) -> Data {
    let lhs = as_float(request.lhs);
    let rhs = as_float(request.rhs);
    match request.operator {
        Operator::Arithmetic(operator) => Data::Float(
            match operator {
                ArithmeticOperator::Add => lhs + rhs,
                ArithmeticOperator::Subtract => lhs - rhs,
                ArithmeticOperator::Multiply => lhs * rhs,
                ArithmeticOperator::Divide => lhs / rhs,
                ArithmeticOperator::Remainder => lhs % rhs,
            }
            .to_bits(),
        ),
        Operator::Relational(operator) => Data::Boolean(match operator {
            RelationalOperator::EqualTo => lhs == rhs,
            RelationalOperator::NotEqualTo => lhs != rhs,
            RelationalOperator::LessThan => lhs < rhs,
            RelationalOperator::LessThanEqualTo => lhs <= rhs,
            RelationalOperator::GreaterThan => lhs > rhs,
            RelationalOperator::GreaterThanEqualTo => lhs >= rhs,
        }),
    }
}

fn native(name: &str, arguments: &Scope) -> Vec<Data> {
    match name {
        "twice" => match arguments.get("value") {
            Some(StoredValue::Value(Data::Integer(i))) => vec![Data::Integer(2 * i)],
            _ => panic!(),
        },
        "nothing" => Vec::new(),
        _ => panic!(),
    }
}

fn drive(mut machine: Machine) -> Result<Machine, RuntimeError> {
    for _ in 0..10_000 {
        machine = machine.run(64).map_err(|fault| fault.error)?;
        let event = match &machine.status {
            Status::Ready => Event::Continue,
            Status::AwaitingFloat { request, .. } => Event::FloatAnswer(float_unit(*request)),
            Status::AwaitingNative { name, arguments, .. } => {
                Event::NativeReturn(native(name, arguments))
            }
            Status::Finished(_) => return Ok(machine),
        };
        machine = machine.step(event)?;
    }
    panic!("the program did not finish");
}

fn run_main(program: &Vec<Instruction>, globals: Scope) -> Result<(Scope, Scope), RuntimeError> {
    let natives = vec![
        InbuiltFunction {
            name: "twice".to_string(),
            params: vec![("value".to_string(), Type::Integer)],
        },
        InbuiltFunction { name: "nothing".to_string(), params: vec![("value".to_string(), Type::Any)] },
    ];
    let machine = drive(Machine::start(program, globals, &natives)?)?;
    Ok((machine.current.locals, machine.globals))
}

fn integer_in(scope: &Scope, name: &str) -> i64 {
    match scope.get(name) {
        Some(StoredValue::Value(Data::Integer(i))) => *i,
        _ => panic!("{} holds no integer", name),
    }
}

fn boolean_in(scope: &Scope, name: &str) -> bool {
    match scope.get(name) {
        Some(StoredValue::Value(Data::Boolean(b))) => *b,
        _ => panic!("{} holds no boolean", name),
    }
}

fn float_in(scope: &Scope, name: &str) -> f64 {
    match scope.get(name) {
        Some(StoredValue::Value(Data::Float(bits))) => f64::from_bits(*bits),
        _ => panic!("{} holds no float", name),
    }
}

#[test]
fn set_and_add_in_main() {
    let program = vec![
        function("main", &[]),
        create("x", Type::Integer),
        set("x", integer(5)),
        arithmetic(ArithmeticOperator::Add, var("x"), integer(3), "x"),
        Instruction::End,
    ];
    let (locals, _) = run_main(&program, Scope::new()).unwrap();
    assert_eq!(integer_in(&locals, "x"), 8);
}

fn adder() -> Vec<Instruction> {
    vec![
        function("add", &[("a", Type::Integer), ("b", Type::Integer)]),
        create("result", Type::Integer),
        arithmetic(ArithmeticOperator::Add, var("a"), var("b"), "result"),
        Instruction::Return(vec![var("result")]),
        Instruction::End,
    ]
}

#[test]
fn call_returns_into_output_binding() {
    let mut program = adder();
    program.extend(vec![
        function("main", &[]),
        create("y", Type::Integer),
        call("add", vec![integer(2), integer(3), var("y")]),
        Instruction::End,
    ]);
    let (locals, _) = run_main(&program, Scope::new()).unwrap();
    assert_eq!(integer_in(&locals, "y"), 5);
}

#[test]
fn call_without_binding_for_returned_value_fails() {
    let mut program = adder();
    program.extend(vec![
        function("main", &[]),
        call("add", vec![integer(2), integer(3)]),
        Instruction::End,
    ]);
    assert_eq!(run_main(&program, Scope::new()).err(), Some(RuntimeError::ReturnArityError));
}

#[test]
fn call_with_too_few_arguments_fails() {
    let mut program = adder();
    program.extend(vec![function("main", &[]), call("add", vec![integer(2)]), Instruction::End]);
    assert_eq!(run_main(&program, Scope::new()).err(), Some(RuntimeError::ArityError));
}

#[test]
fn call_with_argument_of_other_type_fails() {
    let mut program = adder();
    program.extend(vec![
        function("main", &[]),
        create("y", Type::Integer),
        call("add", vec![integer(2), boolean(true), var("y")]),
        Instruction::End,
    ]);
    assert_eq!(run_main(&program, Scope::new()).err(), Some(RuntimeError::TypeMismatch));
}

#[test]
fn call_with_literal_as_output_binding_fails() {
    let mut program = adder();
    program.extend(vec![
        function("main", &[]),
        call("add", vec![integer(2), integer(3), integer(4)]),
        Instruction::End,
    ]);
    assert_eq!(run_main(&program, Scope::new()).err(), Some(RuntimeError::InvalidDestination));
}

#[test]
fn call_of_unknown_function_fails() {
    let program = vec![function("main", &[]), call("missing", vec![]), Instruction::End];
    assert_eq!(run_main(&program, Scope::new()).err(), Some(RuntimeError::UndefinedFunction));
}

#[test]
fn program_without_main_fails() {
    let program = adder();
    assert_eq!(run_main(&program, Scope::new()).err(), Some(RuntimeError::UndefinedFunction));
}

#[test]
fn callee_does_not_see_the_callers_locals() {
    let program = vec![
        function("peek", &[]),
        set("hidden", integer(1)),
        Instruction::End,
        function("main", &[]),
        create("hidden", Type::Integer),
        call("peek", vec![]),
        Instruction::End,
    ];
    assert_eq!(run_main(&program, Scope::new()).err(), Some(RuntimeError::UndefinedVariable));
}

#[test]
fn local_variable_shadows_global() {
    let mut globals = Scope::new();
    globals.insert("x".to_string(), StoredValue::Value(Data::Integer(1)));
    globals.insert("seen".to_string(), StoredValue::Null(Type::Integer));
    let program = vec![
        function("main", &[]),
        create("x", Type::Integer),
        set("x", integer(2)),
        set("seen", var("x")),
        Instruction::End,
    ];
    let (locals, globals) = run_main(&program, globals).unwrap();
    assert_eq!(integer_in(&locals, "x"), 2);
    assert_eq!(integer_in(&globals, "x"), 1);
    assert_eq!(integer_in(&globals, "seen"), 2);
}

#[test]
fn resolve_prefers_local_value() {
    let mut globals = Scope::new();
    globals.insert("x".to_string(), StoredValue::Value(Data::Integer(1)));
    let mut locals = Scope::new();
    locals.insert("x".to_string(), StoredValue::Value(Data::Integer(2)));
    let value = linevm::runtime::variable::resolve("x", &locals, &globals);
    assert!(matches!(value, Ok(Data::Integer(2))));
    let value = linevm::runtime::variable::resolve("x", &Scope::new(), &globals);
    assert!(matches!(value, Ok(Data::Integer(1))));
}

#[test]
fn set_of_global_from_function_writes_global() {
    let mut globals = Scope::new();
    globals.insert("total".to_string(), StoredValue::Value(Data::Integer(0)));
    let program = vec![
        function("bump", &[]),
        arithmetic(ArithmeticOperator::Add, var("total"), integer(1), "total"),
        Instruction::End,
        function("main", &[]),
        call("bump", vec![]),
        call("bump", vec![]),
        Instruction::End,
    ];
    let (_, globals) = run_main(&program, globals).unwrap();
    assert_eq!(integer_in(&globals, "total"), 2);
}

#[test]
fn reading_unset_variable_fails() {
    let program = vec![
        function("main", &[]),
        create("x", Type::Integer),
        create("y", Type::Integer),
        set("y", var("x")),
        Instruction::End,
    ];
    assert_eq!(run_main(&program, Scope::new()).err(), Some(RuntimeError::UninitializedVariable));
}

#[test]
fn setting_undeclared_variable_fails() {
    let program = vec![function("main", &[]), set("x", integer(1)), Instruction::End];
    assert_eq!(run_main(&program, Scope::new()).err(), Some(RuntimeError::UndefinedVariable));
}

fn counting_loop(limit: i64) -> Vec<Instruction> {
    vec![
        Instruction::Block("body".to_string()),
        arithmetic(ArithmeticOperator::Add, var("runs"), integer(1), "runs"),
        compare(RelationalOperator::LessThanEqualTo, var("runs"), integer(limit), "again"),
        Instruction::GoBackIf(var("again")),
        Instruction::End,
        function("main", &[]),
        create("runs", Type::Integer),
        set("runs", integer(0)),
        create("again", Type::Boolean),
        Instruction::Goto("body".to_string()),
        create("after", Type::Integer),
        set("after", var("runs")),
        Instruction::End,
    ]
}

#[test]
fn go_back_if_runs_body_once_more_than_condition_holds() {
    for k in 0..5 {
        let (locals, _) = run_main(&counting_loop(k), Scope::new()).unwrap();
        assert_eq!(integer_in(&locals, "runs"), k + 1);
        assert_eq!(integer_in(&locals, "after"), k + 1);
    }
}

#[test]
fn goto_returns_behind_the_goto() {
    let program = vec![
        Instruction::Block("inner".to_string()),
        set("trace", integer(2)),
        Instruction::End,
        Instruction::Block("outer".to_string()),
        Instruction::Goto("inner".to_string()),
        arithmetic(ArithmeticOperator::Multiply, var("trace"), integer(10), "trace"),
        Instruction::End,
        function("main", &[]),
        create("trace", Type::Integer),
        Instruction::Goto("outer".to_string()),
        arithmetic(ArithmeticOperator::Add, var("trace"), integer(1), "trace"),
        Instruction::End,
    ];
    let (locals, _) = run_main(&program, Scope::new()).unwrap();
    assert_eq!(integer_in(&locals, "trace"), 21);
}

#[test]
fn goto_if_false_passes_over_block() {
    let program = vec![
        Instruction::Block("mark".to_string()),
        set("x", integer(1)),
        Instruction::End,
        function("main", &[]),
        create("x", Type::Integer),
        set("x", integer(0)),
        Instruction::GotoIf("mark".to_string(), boolean(false)),
        Instruction::End,
    ];
    let (locals, _) = run_main(&program, Scope::new()).unwrap();
    assert_eq!(integer_in(&locals, "x"), 0);
}

#[test]
fn goto_if_true_runs_block() {
    let program = vec![
        Instruction::Block("mark".to_string()),
        set("x", integer(1)),
        Instruction::End,
        function("main", &[]),
        create("x", Type::Integer),
        set("x", integer(0)),
        Instruction::GotoIf("mark".to_string(), boolean(true)),
        Instruction::End,
    ];
    let (locals, _) = run_main(&program, Scope::new()).unwrap();
    assert_eq!(integer_in(&locals, "x"), 1);
}

#[test]
fn goto_of_unknown_block_fails() {
    let program =
        vec![function("main", &[]), Instruction::Goto("nowhere".to_string()), Instruction::End];
    assert_eq!(run_main(&program, Scope::new()).err(), Some(RuntimeError::UndefinedBlock));
}

#[test]
fn condition_that_is_no_boolean_fails() {
    let program = vec![function("main", &[]), Instruction::GoBackIf(integer(1)), Instruction::End];
    assert_eq!(run_main(&program, Scope::new()).err(), Some(RuntimeError::TypeMismatch));
}

#[test]
fn return_inside_block_fails() {
    let program = vec![
        Instruction::Block("leave".to_string()),
        Instruction::Return(vec![]),
        Instruction::End,
        function("main", &[]),
        Instruction::Goto("leave".to_string()),
        Instruction::End,
    ];
    assert_eq!(run_main(&program, Scope::new()).err(), Some(RuntimeError::MalformedControlFlow));
}

fn skipping(count: usize) -> Vec<Instruction> {
    vec![
        function("main", &[]),
        create("x", Type::Integer),
        set("x", integer(0)),
        Instruction::Skip(count),
        arithmetic(ArithmeticOperator::Add, var("x"), integer(1), "x"),
        arithmetic(ArithmeticOperator::Add, var("x"), integer(10), "x"),
        arithmetic(ArithmeticOperator::Add, var("x"), integer(100), "x"),
        Instruction::End,
    ]
}

#[test]
fn skip_zero_goes_on_with_next_instruction() {
    let (locals, _) = run_main(&skipping(0), Scope::new()).unwrap();
    assert_eq!(integer_in(&locals, "x"), 111);
}

#[test]
fn skip_two_passes_over_two_instructions() {
    let (locals, _) = run_main(&skipping(2), Scope::new()).unwrap();
    assert_eq!(integer_in(&locals, "x"), 100);
}

#[test]
fn skip_beyond_the_program_ends_the_invocation() {
    let (locals, _) = run_main(&skipping(usize::MAX), Scope::new()).unwrap();
    assert_eq!(integer_in(&locals, "x"), 0);
}

#[test]
fn float_addition_goes_through_the_float_unit() {
    let program = vec![
        function("main", &[]),
        create("x", Type::Float),
        arithmetic(ArithmeticOperator::Add, integer(2), float(0.5), "x"),
        create("y", Type::Float),
        arithmetic(ArithmeticOperator::Add, float(0.5), integer(2), "y"),
        create("same", Type::Boolean),
        compare(RelationalOperator::EqualTo, var("x"), var("y"), "same"),
        Instruction::End,
    ];
    let (locals, _) = run_main(&program, Scope::new()).unwrap();
    assert_eq!(float_in(&locals, "x"), 2.5);
    assert_eq!(float_in(&locals, "y"), 2.5);
    assert!(boolean_in(&locals, "same"));
}

#[test]
fn integer_equals_float_of_same_value() {
    let program = vec![
        function("main", &[]),
        create("same", Type::Boolean),
        compare(RelationalOperator::EqualTo, integer(2), float(2.0), "same"),
        Instruction::End,
    ];
    let (locals, _) = run_main(&program, Scope::new()).unwrap();
    assert!(boolean_in(&locals, "same"));
}

#[test]
fn machine_waits_with_the_request() {
    let program = vec![
        function("main", &[]),
        create("x", Type::Float),
        arithmetic(ArithmeticOperator::Divide, float(1.0), integer(4), "x"),
        Instruction::End,
    ];
    let natives = Vec::new();
    let machine = Machine::start(&program, Scope::new(), &natives).unwrap().run(100).unwrap();
    match &machine.status {
        Status::AwaitingFloat { request, destination } => {
            assert_eq!(destination, "x");
            assert!(
                request.operator == Operator::Arithmetic(ArithmeticOperator::Divide)
                    && request.lhs == Number::Float(1.0f64.to_bits())
                    && request.rhs == Number::Integer(4)
            );
        }
        _ => panic!(),
    }
    let wrong = machine.step(Event::Continue);
    assert_eq!(wrong.err(), Some(RuntimeError::MalformedControlFlow));
}

#[test]
fn answer_of_wrong_kind_fails() {
    let program = vec![
        function("main", &[]),
        create("x", Type::Float),
        arithmetic(ArithmeticOperator::Divide, float(1.0), integer(4), "x"),
        Instruction::End,
    ];
    let natives = Vec::new();
    let machine = Machine::start(&program, Scope::new(), &natives).unwrap().run(100).unwrap();
    let next = machine.step(Event::FloatAnswer(Data::Boolean(true)));
    assert_eq!(next.err(), Some(RuntimeError::TypeMismatch));
}

#[test]
fn native_function_returns_into_output_binding() {
    let program = vec![
        function("main", &[]),
        create("y", Type::Integer),
        call("twice", vec![integer(21), var("y")]),
        call("nothing", vec![var("y")]),
        Instruction::End,
    ];
    let (locals, _) = run_main(&program, Scope::new()).unwrap();
    assert_eq!(integer_in(&locals, "y"), 42);
}

#[test]
fn native_function_checks_argument_types() {
    let program =
        vec![function("main", &[]), call("twice", vec![boolean(true)]), Instruction::End];
    assert_eq!(run_main(&program, Scope::new()).err(), Some(RuntimeError::TypeMismatch));
}

#[test]
fn native_function_needs_binding_for_each_value() {
    let program = vec![function("main", &[]), call("twice", vec![integer(1)]), Instruction::End];
    assert_eq!(run_main(&program, Scope::new()).err(), Some(RuntimeError::ReturnArityError));
}

#[test]
fn function_of_the_program_hides_native_function() {
    let program = vec![
        function("twice", &[("value", Type::Integer)]),
        Instruction::Return(vec![integer(7)]),
        Instruction::End,
        function("main", &[]),
        create("y", Type::Integer),
        call("twice", vec![integer(1), var("y")]),
        Instruction::End,
    ];
    let (locals, _) = run_main(&program, Scope::new()).unwrap();
    assert_eq!(integer_in(&locals, "y"), 7);
}

#[test]
fn unsupported_operation_fails() {
    let program = vec![
        function("main", &[]),
        create("x", Type::Integer),
        arithmetic(ArithmeticOperator::Subtract, boolean(true), boolean(false), "x"),
        Instruction::End,
    ];
    assert_eq!(run_main(&program, Scope::new()).err(), Some(RuntimeError::UnsupportedOperation));
}

#[test]
fn literal_destination_fails() {
    let program = vec![
        function("main", &[]),
        Instruction::Arithmetic(ArithmeticOperator::Add, integer(1), integer(2), integer(3)),
        Instruction::End,
    ];
    assert_eq!(run_main(&program, Scope::new()).err(), Some(RuntimeError::InvalidDestination));
}

#[test]
fn head_in_the_flow_fails() {
    let program = vec![function("main", &[]), Instruction::Block("b".to_string())];
    assert_eq!(run_main(&program, Scope::new()).err(), Some(RuntimeError::MalformedControlFlow));
}

#[test]
fn end_of_program_ends_main() {
    let program = vec![function("main", &[]), create("x", Type::Integer), set("x", integer(4))];
    let (locals, _) = run_main(&program, Scope::new()).unwrap();
    assert_eq!(integer_in(&locals, "x"), 4);
}

#[test]
fn run_stops_when_fuel_is_spent() {
    let program = vec![function("main", &[]), Instruction::GoBack];
    let natives = Vec::new();
    let machine = Machine::start(&program, Scope::new(), &natives).unwrap().run(1000).unwrap();
    assert!(matches!(machine.status, Status::Ready));
    assert_eq!(machine.current.region().cursor, 1);
}

#[test]
fn run_function_hands_out_returned_values() {
    let program = adder();
    let natives = Vec::new();
    let mut arguments = Scope::new();
    arguments.insert("a".to_string(), StoredValue::Value(Data::Integer(20)));
    arguments.insert("b".to_string(), StoredValue::Value(Data::Integer(22)));
    let machine = linevm::runtime::machine::run_function(
        &program,
        0,
        Some(arguments),
        Scope::new(),
        &natives,
        100,
    )
    .unwrap();
    match machine.status {
        Status::Finished(Some(values)) => {
            assert_eq!(values.len(), 1);
            assert!(matches!(values[0], Data::Integer(42)));
        }
        _ => panic!(),
    }
}

#[test]
fn finished_machine_stays_finished() {
    let program = vec![function("main", &[]), Instruction::End];
    let natives = Vec::new();
    let machine = Machine::start(&program, Scope::new(), &natives).unwrap().run(10).unwrap();
    assert!(matches!(machine.status, Status::Finished(None)));
    let machine = machine.step(Event::Continue).unwrap();
    assert!(matches!(machine.status, Status::Finished(None)));
}

#[test]
fn return_in_main_fails() {
    let program = vec![function("main", &[]), Instruction::Return(vec![integer(1)]), Instruction::End];
    assert_eq!(run_main(&program, Scope::new()).err(), Some(RuntimeError::MalformedControlFlow));
}

#[test]
fn run_reports_where_it_failed() {
    let program = vec![
        function("main", &[]),
        create("x", Type::Integer),
        set("x", integer(1)),
        set("y", integer(2)),
        Instruction::End,
    ];
    let natives = Vec::new();
    let failed = Machine::start(&program, Scope::new(), &natives).unwrap().run(100).err();
    assert_eq!(failed, Some(Fault { error: RuntimeError::UndefinedVariable, index: 3 }));
}

#[test]
fn function_calls_itself() {
    let program = vec![
        function("factorial", &[("n", Type::Integer)]),
        create("result", Type::Integer),
        set("result", integer(1)),
        create("more", Type::Boolean),
        compare(RelationalOperator::GreaterThan, var("n"), integer(1), "more"),
        Instruction::GotoIf("recurse".to_string(), var("more")),
        Instruction::Return(vec![var("result")]),
        Instruction::End,
        Instruction::Block("recurse".to_string()),
        create("less", Type::Integer),
        arithmetic(ArithmeticOperator::Subtract, var("n"), integer(1), "less"),
        call("factorial", vec![var("less"), var("result")]),
        arithmetic(ArithmeticOperator::Multiply, var("result"), var("n"), "result"),
        Instruction::End,
        function("main", &[]),
        create("x", Type::Integer),
        call("factorial", vec![integer(10), var("x")]),
        Instruction::End,
    ];
    let (locals, _) = run_main(&program, Scope::new()).unwrap();
    assert_eq!(integer_in(&locals, "x"), 3628800);
}

#[test]
fn several_values_return_in_order() {
    let program = vec![
        function("pair", &[]),
        Instruction::Return(vec![integer(1), integer(2)]),
        Instruction::End,
        function("main", &[]),
        create("a", Type::Integer),
        create("b", Type::Integer),
        call("pair", vec![var("a"), var("b")]),
        Instruction::End,
    ];
    let (locals, _) = run_main(&program, Scope::new()).unwrap();
    assert_eq!(integer_in(&locals, "a"), 1);
    assert_eq!(integer_in(&locals, "b"), 2);
}

#[test]
fn same_binding_twice_keeps_last_value() {
    let program = vec![
        function("pair", &[]),
        Instruction::Return(vec![integer(1), integer(2)]),
        Instruction::End,
        function("main", &[]),
        create("a", Type::Integer),
        call("pair", vec![var("a"), var("a")]),
        Instruction::End,
    ];
    let (locals, _) = run_main(&program, Scope::new()).unwrap();
    assert_eq!(integer_in(&locals, "a"), 2);
}

#[test]
fn function_that_ends_without_return_gives_no_values() {
    let program = vec![
        function("quiet", &[]),
        Instruction::End,
        function("main", &[]),
        create("a", Type::Integer),
        call("quiet", vec![]),
        call("quiet", vec![var("a")]),
        Instruction::End,
    ];
    assert_eq!(run_main(&program, Scope::new()).err(), Some(RuntimeError::ReturnArityError));
}

#[test]
fn output_binding_must_exist_in_the_caller() {
    let program = vec![
        function("one", &[]),
        create("hidden", Type::Integer),
        Instruction::Return(vec![integer(1)]),
        Instruction::End,
        function("main", &[]),
        call("one", vec![var("hidden")]),
        Instruction::End,
    ];
    assert_eq!(run_main(&program, Scope::new()).err(), Some(RuntimeError::UndefinedVariable));
}

#[test]
fn output_binding_may_be_global() {
    let mut globals = Scope::new();
    globals.insert("out".to_string(), StoredValue::Null(Type::Integer));
    let program = vec![
        function("one", &[]),
        Instruction::Return(vec![integer(1)]),
        Instruction::End,
        function("main", &[]),
        call("one", vec![var("out")]),
        Instruction::End,
    ];
    let (_, globals) = run_main(&program, globals).unwrap();
    assert_eq!(integer_in(&globals, "out"), 1);
}

#[test]
fn go_back_restarts_function_body() {
    let program = vec![
        function("main", &[]),
        arithmetic(ArithmeticOperator::Add, var("count"), integer(1), "count"),
        compare(RelationalOperator::GreaterThanEqualTo, var("count"), integer(3), "enough"),
        Instruction::GotoIf("nothing".to_string(), var("enough")),
        Instruction::GoBackIf(boolean(false)),
        compare(RelationalOperator::LessThan, var("count"), integer(3), "again"),
        Instruction::GoBackIf(var("again")),
        Instruction::End,
        Instruction::Block("nothing".to_string()),
        Instruction::End,
    ];
    let mut globals = Scope::new();
    globals.insert("count".to_string(), StoredValue::Value(Data::Integer(0)));
    globals.insert("enough".to_string(), StoredValue::Null(Type::Boolean));
    globals.insert("again".to_string(), StoredValue::Null(Type::Boolean));
    let (_, globals) = run_main(&program, globals).unwrap();
    assert_eq!(integer_in(&globals, "count"), 3);
}

#[test]
fn redeclaration_unsets_the_variable() {
    let program = vec![
        function("main", &[]),
        create("x", Type::Integer),
        set("x", integer(1)),
        create("x", Type::Boolean),
        create("y", Type::Integer),
        set("y", var("x")),
        Instruction::End,
    ];
    assert_eq!(run_main(&program, Scope::new()).err(), Some(RuntimeError::UninitializedVariable));
}

#[test]
fn assignment_does_not_check_the_declared_type() {
    let program = vec![
        function("main", &[]),
        create("x", Type::Integer),
        set("x", boolean(true)),
        Instruction::End,
    ];
    let (locals, _) = run_main(&program, Scope::new()).unwrap();
    assert!(boolean_in(&locals, "x"));
}

#[test]
fn index_lookups_find_the_first_head() {
    let program = vec![
        Instruction::Block("main".to_string()),
        function("main", &[]),
        Instruction::Block("b".to_string()),
        function("main", &[]),
        Instruction::Block("b".to_string()),
    ];
    assert_eq!(linevm::runtime::get_function_index(&program, "main"), Some(1));
    assert_eq!(linevm::runtime::get_block_index(&program, "main"), Some(0));
    assert_eq!(linevm::runtime::get_block_index(&program, "b"), Some(2));
    assert_eq!(linevm::runtime::get_function_index(&program, "b"), None);
    assert_eq!(linevm::runtime::get_function_index(&[], "main"), None);
}

#[test]
fn errors_are_described() {
    assert_eq!(RuntimeError::UndefinedVariable.description(), "a variable is not defined");
    assert_eq!(RuntimeError::ArityError.description(), "a call has too few arguments");
    assert_eq!(RuntimeError::MalformedControlFlow.description(), "an instruction is out of place");
}
