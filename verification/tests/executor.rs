use std::sync::Arc;

use kcl_lib::ast::{
    BinaryExpression, BinaryOperator, BodyItem, CallExpression, ExpressionStatement, FunctionExpression, Identifier,
    Literal, PipeSubstitution, Program, ReturnStatement, Value, VariableDeclaration, VariableDeclarator,
};
use kcl_lib::errors::ErrorKind;
use kcl_lib::executor::{execute, BodyType, Cursor, PipeInfo, Request};
use kcl_lib::json::JsonValue;
use kcl_lib::memory::{MemoryFunction, MemoryItem, ProgramMemory, ProgramReturn};
use kcl_lib::number::Number;
use kcl_lib::source::{Metadata, SourceRange};

fn literal(n: u64, start: usize, end: usize) -> Value {
    Value::Literal(Arc::new(Literal {
        start,
        end,
        value: JsonValue::Number(Number::PosInt(n)),
        raw: n.to_string(),
    }))
}

fn identifier(name: &str, start: usize, end: usize) -> Identifier {
    Identifier { start, end, name: name.to_string() }
}

fn name(name: &str, start: usize, end: usize) -> Value {
    Value::Identifier(Arc::new(identifier(name, start, end)))
}

fn declare(variable: &str, init: Value, start: usize, end: usize) -> BodyItem {
    BodyItem::VariableDeclaration(VariableDeclaration {
        start,
        end,
        declarations: vec![VariableDeclarator { start, end, id: identifier(variable, start, start), init }],
    })
}

fn call(callee: &str, arguments: Vec<Value>, start: usize, end: usize) -> BodyItem {
    BodyItem::ExpressionStatement(ExpressionStatement {
        start,
        end,
        expression: Value::CallExpression(Arc::new(CallExpression {
            start,
            end,
            callee: identifier(callee, start, start),
            arguments,
        })),
    })
}

fn program(body: Vec<BodyItem>) -> Program {
    Program { start: 0, end: 0, body }
}

fn plus(left: Value, right: Value, start: usize, end: usize) -> Value {
    Value::BinaryExpression(Arc::new(BinaryExpression { start, end, operator: BinaryOperator::Add, left, right }))
}

fn user(n: u64, start: usize, end: usize) -> MemoryItem {
    MemoryItem::UserVal {
        value: JsonValue::Number(Number::PosInt(n)),
        meta: vec![Metadata { source_range: SourceRange([start, end]) }],
    }
}

fn identity_function(start: usize, end: usize) -> Arc<FunctionExpression> {
    Arc::new(FunctionExpression {
        start,
        end,
        params: vec![identifier("x", start + 1, start + 2)],
        body: program(vec![BodyItem::ReturnStatement(ReturnStatement {
            start: start + 10,
            end: start + 18,
            argument: name("x", start + 17, start + 18),
        })]),
    })
}

fn run_to_end(program: &Program, memory: &mut ProgramMemory, options: BodyType) {
    let mut cursor = Cursor::start();
    assert_eq!(execute(program, memory, options, &mut cursor).unwrap(), None);
    assert_eq!(cursor.statement, program.body.len());
}

#[test]
fn assigns_a_literal_and_asks_for_the_sum() {
    // const myVar = 5
    // const newVar = myVar + 1
    let program = program(vec![
        declare("myVar", literal(5, 14, 15), 6, 15),
        declare("newVar", plus(name("myVar", 31, 36), literal(1, 39, 40), 31, 40), 22, 40),
    ]);
    let mut memory = ProgramMemory::new();
    let mut cursor = Cursor::start();
    let request = execute(&program, &mut memory, BodyType::Root, &mut cursor).unwrap().unwrap();
    assert_eq!(cursor, Cursor { statement: 1, declaration: 1 });
    assert_eq!(
        memory.get("myVar", SourceRange([0, 0])).unwrap().get_json_value().unwrap(),
        JsonValue::Number(Number::PosInt(5))
    );
    match &request {
        Request::Declare { name, expression, source_range } => {
            assert_eq!(name, "newVar");
            assert_eq!(*source_range, SourceRange([31, 40]));
            assert!(matches!(expression, Value::BinaryExpression(_)));
        }
        other => panic!("not a declaration: {:?}", other),
    }
    let sum = MemoryItem::UserVal { value: JsonValue::Number(Number::Float((5.0f64 + 1.0).to_bits())), meta: vec![] };
    request.complete(sum, &mut memory).unwrap();
    assert_eq!(execute(&program, &mut memory, BodyType::Root, &mut cursor).unwrap(), None);
    assert_eq!(cursor, Cursor { statement: 2, declaration: 0 });
    assert_eq!(
        memory.get("newVar", SourceRange([0, 0])).unwrap().get_json_value().unwrap(),
        JsonValue::Number(Number::Float(6.0f64.to_bits()))
    );
    assert_eq!(memory.return_, None);
}

#[test]
fn a_literal_is_bound_with_the_span_of_the_literal() {
    let program = program(vec![declare("a", literal(1, 10, 11), 0, 11)]);
    let mut memory = ProgramMemory::new();
    run_to_end(&program, &mut memory, BodyType::Root);
    assert_eq!(memory.get("a", SourceRange([0, 0])).unwrap(), &user(1, 10, 11));
}

#[test]
fn a_name_is_bound_to_a_copy_of_its_value() {
    let program = program(vec![declare("a", literal(1, 10, 11), 0, 11), declare("b", name("a", 22, 23), 12, 23)]);
    let mut memory = ProgramMemory::new();
    run_to_end(&program, &mut memory, BodyType::Root);
    assert_eq!(memory.get("b", SourceRange([0, 0])).unwrap(), &user(1, 10, 11));
    assert_eq!(memory.root.len(), 2);
}

#[test]
fn redefining_a_name_fails_at_the_second_declaration() {
    // const a = 1; const a = 2
    let program = program(vec![declare("a", literal(1, 10, 11), 6, 11), declare("a", literal(2, 23, 24), 19, 24)]);
    let mut memory = ProgramMemory::new();
    let mut cursor = Cursor::start();
    let error = execute(&program, &mut memory, BodyType::Root, &mut cursor).unwrap_err();
    assert_eq!(error.kind(), ErrorKind::ValueAlreadyDefined);
    assert_eq!(error.message(), "Cannot redefine a");
    assert_eq!(error.source_ranges(), vec![SourceRange([23, 24])]);
    assert_eq!(cursor, Cursor { statement: 1, declaration: 0 });
    assert_eq!(memory.get("a", SourceRange([0, 0])).unwrap(), &user(1, 10, 11));
    assert_eq!(memory.root.len(), 1);
}

#[test]
fn an_unknown_name_is_an_undefined_value() {
    let program = program(vec![declare("b", name("a", 22, 23), 12, 23)]);
    let mut memory = ProgramMemory::new();
    let mut cursor = Cursor::start();
    let error = execute(&program, &mut memory, BodyType::Root, &mut cursor).unwrap_err();
    assert_eq!(error.kind(), ErrorKind::UndefinedValue);
    assert_eq!(error.message(), "memory item key `a` is not defined");
    assert_eq!(error.source_ranges(), vec![SourceRange([22, 23])]);
    assert!(memory.root.is_empty());
}

#[test]
fn a_bare_pipe_placeholder_cannot_be_declared() {
    let init = Value::PipeSubstitution(Arc::new(PipeSubstitution { start: 10, end: 11 }));
    let program = program(vec![declare("a", init, 0, 11)]);
    let mut memory = ProgramMemory::new();
    let mut cursor = Cursor::start();
    let error = execute(&program, &mut memory, BodyType::Root, &mut cursor).unwrap_err();
    assert_eq!(error.kind(), ErrorKind::Semantic);
    assert_eq!(error.message(), "pipe substitution not implemented for declaration of variable a");
    assert_eq!(error.source_ranges(), vec![SourceRange([10, 11])]);
}

#[test]
fn show_at_the_root_records_its_arguments() {
    let program = program(vec![
        declare("part", literal(1, 13, 14), 6, 14),
        call("show", vec![name("part", 20, 24)], 15, 25),
    ]);
    let mut memory = ProgramMemory::new();
    run_to_end(&program, &mut memory, BodyType::Root);
    assert_eq!(memory.return_, Some(ProgramReturn::Arguments(vec![name("part", 20, 24)])));
}

#[test]
fn show_outside_the_root_is_a_semantic_error() {
    let program = program(vec![
        declare("part", literal(1, 13, 14), 6, 14),
        call("show", vec![name("part", 20, 24)], 15, 25),
    ]);
    for options in [BodyType::Block, BodyType::Sketch] {
        let mut memory = ProgramMemory::new();
        let mut cursor = Cursor::start();
        let error = execute(&program, &mut memory, options, &mut cursor).unwrap_err();
        assert_eq!(error.kind(), ErrorKind::Semantic);
        assert_eq!(error.message(), "Cannot call show outside of a root");
        assert_eq!(error.source_ranges(), vec![SourceRange([15, 25])]);
        assert_eq!(memory.return_, None);
        assert_eq!(cursor, Cursor { statement: 1, declaration: 0 });
    }
}

#[test]
fn the_arguments_of_show_are_resolved_first() {
    let program = program(vec![call("show", vec![name("nothing", 20, 27)], 15, 28)]);
    let mut memory = ProgramMemory::new();
    let mut cursor = Cursor::start();
    let error = execute(&program, &mut memory, BodyType::Block, &mut cursor).unwrap_err();
    assert_eq!(error.kind(), ErrorKind::UndefinedValue);
    assert_eq!(error.source_ranges(), vec![SourceRange([20, 27])]);
}

#[test]
fn a_call_of_an_unknown_name_is_a_semantic_error() {
    let program = program(vec![call("nothing", vec![], 3, 12)]);
    let mut memory = ProgramMemory::new();
    let mut cursor = Cursor::start();
    let error = execute(&program, &mut memory, BodyType::Root, &mut cursor).unwrap_err();
    assert_eq!(error.kind(), ErrorKind::Semantic);
    assert_eq!(error.message(), "No such name nothing defined");
    assert_eq!(error.source_ranges(), vec![SourceRange([3, 12])]);
}

fn function_in(memory: &ProgramMemory) -> MemoryItem {
    MemoryItem::Function {
        func: Some(MemoryFunction::Closure),
        expression: identity_function(12, 40),
        memory: Arc::new(memory.clone()),
        meta: vec![],
    }
}

#[test]
fn a_call_in_statement_position_asks_for_its_arguments_from_left_to_right() {
    let function = identity_function(12, 40);
    let sum = plus(literal(1, 63, 64), literal(2, 67, 68), 63, 68);
    let product = plus(literal(4, 70, 71), literal(5, 74, 75), 70, 75);
    let program = program(vec![
        declare("def", Value::FunctionExpression(function.clone()), 6, 40),
        declare("yo", literal(7, 50, 51), 45, 51),
        call("def", vec![name("yo", 56, 58), sum.clone(), literal(3, 60, 61), product.clone()], 52, 76),
    ]);
    let mut memory = ProgramMemory::new();
    let mut cursor = Cursor::start();
    let request = execute(&program, &mut memory, BodyType::Root, &mut cursor).unwrap().unwrap();
    assert_eq!(cursor, Cursor { statement: 3, declaration: 0 });
    match &request {
        Request::Argument { call, index, resolved, options } => {
            assert_eq!(call.callee.name, "def");
            assert_eq!(*index, 1);
            assert_eq!(resolved, &vec![user(7, 50, 51)]);
            assert_eq!(*options, BodyType::Root);
        }
        other => panic!("not an argument: {:?}", other),
    }
    assert_eq!(request.expression(), Some(sum));
    let request = request.complete(user(30, 0, 0), &mut memory).unwrap().unwrap();
    match &request {
        Request::Argument { index, resolved, .. } => {
            assert_eq!(*index, 3);
            assert_eq!(resolved, &vec![user(7, 50, 51), user(30, 0, 0), user(3, 60, 61)]);
        }
        other => panic!("not an argument: {:?}", other),
    }
    assert_eq!(request.expression(), Some(product));
    let request = request.complete(user(20, 0, 0), &mut memory).unwrap().unwrap();
    let mut declared_in = ProgramMemory::new();
    let expected = MemoryItem::Function {
        func: Some(MemoryFunction::Closure),
        expression: function,
        memory: Arc::new(declared_in.clone()),
        meta: vec![Metadata { source_range: SourceRange([12, 40]) }],
    };
    match &request {
        Request::Call { function, arguments, source_range } => {
            assert_eq!(function, &expected);
            assert_eq!(arguments, &vec![user(7, 50, 51), user(30, 0, 0), user(3, 60, 61), user(20, 0, 0)]);
            assert_eq!(*source_range, SourceRange([52, 76]));
        }
        other => panic!("not a call: {:?}", other),
    }
    assert_eq!(request.expression(), None);
    let before = memory.clone();
    assert_eq!(request.complete(user(0, 0, 0), &mut memory).unwrap(), None);
    assert_eq!(memory, before);
    assert_eq!(execute(&program, &mut memory, BodyType::Root, &mut cursor).unwrap(), None);
    declared_in.add("unused", user(0, 0, 0), SourceRange([0, 0])).unwrap();
}

#[test]
fn an_unknown_name_behind_an_argument_of_the_host_fails_when_its_turn_comes() {
    let sum = plus(literal(1, 63, 64), literal(2, 67, 68), 63, 68);
    let program = program(vec![call("show", vec![sum, name("nothing", 70, 77)], 52, 78)]);
    let mut memory = ProgramMemory::new();
    let mut cursor = Cursor::start();
    let request = execute(&program, &mut memory, BodyType::Block, &mut cursor).unwrap().unwrap();
    assert!(matches!(request, Request::Argument { index: 0, .. }));
    let error = request.complete(user(3, 0, 0), &mut memory).unwrap_err();
    assert_eq!(error.kind(), ErrorKind::UndefinedValue);
    assert_eq!(error.source_ranges(), vec![SourceRange([70, 77])]);
    assert_eq!(memory, ProgramMemory::new());
}

#[test]
fn show_with_an_argument_of_the_host_records_its_arguments_as_written() {
    let sum = plus(literal(1, 63, 64), literal(2, 67, 68), 63, 68);
    let program = program(vec![call("show", vec![sum.clone()], 52, 78)]);
    let mut memory = ProgramMemory::new();
    let mut cursor = Cursor::start();
    let request = execute(&program, &mut memory, BodyType::Root, &mut cursor).unwrap().unwrap();
    assert_eq!(request.complete(user(3, 0, 0), &mut memory).unwrap(), None);
    assert_eq!(memory.return_, Some(ProgramReturn::Arguments(vec![sum])));
    let mut block = ProgramMemory::new();
    let mut cursor = Cursor::start();
    let request = execute(&program, &mut block, BodyType::Block, &mut cursor).unwrap().unwrap();
    let error = request.complete(user(3, 0, 0), &mut block).unwrap_err();
    assert_eq!(error.kind(), ErrorKind::Semantic);
    assert_eq!(error.message(), "Cannot call show outside of a root");
    assert_eq!(block.return_, None);
}

#[test]
fn calling_a_function_binds_its_parameters_in_a_copy_of_the_memory_of_its_declaration() {
    let mut memory = ProgramMemory::new();
    memory.add("yo", user(11, 0, 1), SourceRange([0, 1])).unwrap();
    let item = function_in(&memory);
    let before = memory.clone();
    let activation = item.call_fn(&[user(5, 2, 3)]).unwrap();
    assert_eq!(memory, before);
    assert_eq!(item, function_in(&before));
    assert_eq!(activation.function, identity_function(12, 40));
    assert_eq!(activation.memory.get("x", SourceRange([0, 0])).unwrap(), &user(5, 2, 3));
    assert_eq!(activation.memory.get("yo", SourceRange([0, 0])).unwrap(), &user(11, 0, 1));
    assert!(memory.get("x", SourceRange([0, 0])).is_err());

    let mut fn_memory = activation.memory;
    run_to_end(&activation.function.body, &mut fn_memory, BodyType::Block);
    assert_eq!(fn_memory.return_, Some(ProgramReturn::Value(user(5, 2, 3))));
    assert_eq!(fn_memory.return_.unwrap().get_value().unwrap(), user(5, 2, 3));
    assert_eq!(memory.return_, None);
}

#[test]
fn what_is_bound_after_a_function_was_declared_does_not_reach_its_body() {
    // const before = 1; const f = (x) => { return x }; const later = 2; const x = 3
    let program = program(vec![
        declare("before", literal(1, 14, 15), 6, 15),
        declare("f", Value::FunctionExpression(identity_function(26, 50)), 22, 50),
        declare("later", literal(2, 64, 65), 56, 65),
        declare("x", literal(3, 76, 77), 72, 77),
    ]);
    let mut memory = ProgramMemory::new();
    run_to_end(&program, &mut memory, BodyType::Root);
    let function = memory.get("f", SourceRange([0, 0])).unwrap().clone();
    let activation = function.call_fn(&[user(5, 2, 3)]).unwrap();
    assert_eq!(activation.memory.get("before", SourceRange([0, 0])).unwrap(), &user(1, 14, 15));
    assert_eq!(activation.memory.get("x", SourceRange([0, 0])).unwrap(), &user(5, 2, 3));
    assert!(activation.memory.get("later", SourceRange([0, 0])).is_err());
    assert!(activation.memory.get("f", SourceRange([0, 0])).is_err());
    assert_eq!(activation.memory.root.len(), 2);

    let mut earlier = ProgramMemory::new();
    let mut cursor = Cursor::start();
    let two = kcl_lib::ast::Program { start: 0, end: 50, body: program.body.into_iter().take(2).collect() };
    assert_eq!(execute(&two, &mut earlier, BodyType::Root, &mut cursor).unwrap(), None);
    let at_declaration = earlier.get("f", SourceRange([0, 0])).unwrap().call_fn(&[user(5, 2, 3)]).unwrap();
    assert_eq!(at_declaration, activation);
}

#[test]
fn a_call_with_the_wrong_number_of_arguments_is_a_type_error() {
    let item = function_in(&ProgramMemory::new());
    let error = item.call_fn(&[]).unwrap_err();
    assert_eq!(error.kind(), ErrorKind::Type);
    assert_eq!(error.message(), "Expected 1 arguments, got 0");
    assert_eq!(error.source_ranges(), vec![SourceRange([12, 40])]);
    let error = item.call_fn(&[user(1, 0, 0), user(2, 0, 0)]).unwrap_err();
    assert_eq!(error.kind(), ErrorKind::Type);
    assert_eq!(error.message(), "Expected 1 arguments, got 2");
    let many: Vec<MemoryItem> = (0..12).map(|i| user(i, 0, 0)).collect();
    let error = item.call_fn(&many).unwrap_err();
    assert_eq!(error.message(), "Expected 1 arguments, got 12");
}

#[test]
fn a_parameter_cannot_take_a_name_that_has_a_value_where_the_function_was_declared() {
    let mut memory = ProgramMemory::new();
    memory.add("x", user(1, 0, 1), SourceRange([0, 1])).unwrap();
    let error = function_in(&memory).call_fn(&[user(5, 2, 3)]).unwrap_err();
    assert_eq!(error.kind(), ErrorKind::ValueAlreadyDefined);
    assert_eq!(error.message(), "Cannot redefine x");
    assert_eq!(error.source_ranges(), vec![SourceRange([13, 14])]);
}

#[test]
fn what_is_no_callable_function_cannot_be_called() {
    let restored = MemoryItem::Function {
        func: None,
        expression: identity_function(12, 40),
        memory: Arc::new(ProgramMemory::new()),
        meta: vec![],
    };
    let error = restored.call_fn(&[user(5, 2, 3)]).unwrap_err();
    assert_eq!(error.kind(), ErrorKind::Semantic);
    assert!(error.message().starts_with("Not a function: "));
    assert!(error.message().len() > "Not a function: ".len());
    assert!(error.source_ranges().is_empty());
    let error = user(1, 0, 1).call_fn(&[]).unwrap_err();
    assert_eq!(error.kind(), ErrorKind::Semantic);
    assert!(error.message().starts_with("not a function: "));
    assert!(error.message().contains("UserVal"));
    assert!(error.source_ranges().is_empty());
}

#[test]
fn a_return_of_a_name_hands_back_its_value() {
    let program = program(vec![BodyItem::ReturnStatement(ReturnStatement {
        start: 0,
        end: 8,
        argument: name("x", 7, 8),
    })]);
    let mut memory = ProgramMemory::new();
    memory.add("x", user(4, 0, 1), SourceRange([0, 1])).unwrap();
    run_to_end(&program, &mut memory, BodyType::Block);
    assert_eq!(memory.return_, Some(ProgramReturn::Value(user(4, 0, 1))));
}

#[test]
fn a_return_of_a_sum_is_handed_to_the_host() {
    let sum = plus(name("x", 7, 8), literal(1, 11, 12), 7, 12);
    let program = program(vec![BodyItem::ReturnStatement(ReturnStatement { start: 0, end: 12, argument: sum.clone() })]);
    let mut memory = ProgramMemory::new();
    let mut cursor = Cursor::start();
    let request = execute(&program, &mut memory, BodyType::Block, &mut cursor).unwrap().unwrap();
    assert_eq!(request, Request::Return { expression: sum });
    request.complete(user(5, 0, 0), &mut memory).unwrap();
    assert_eq!(memory.return_, Some(ProgramReturn::Value(user(5, 0, 0))));
    assert_eq!(execute(&program, &mut memory, BodyType::Block, &mut cursor).unwrap(), None);
}

#[test]
fn a_return_of_a_literal_hands_back_its_value() {
    let program =
        program(vec![BodyItem::ReturnStatement(ReturnStatement { start: 0, end: 8, argument: literal(5, 7, 8) })]);
    let mut memory = ProgramMemory::new();
    run_to_end(&program, &mut memory, BodyType::Block);
    assert_eq!(memory.return_, Some(ProgramReturn::Value(user(5, 7, 8))));
    assert_eq!(
        memory.return_.as_ref().unwrap().get_value().unwrap().get_json_value().unwrap(),
        JsonValue::Number(Number::PosInt(5))
    );
    assert!(memory.root.is_empty());
}

#[test]
fn a_return_of_any_other_expression_is_handed_to_the_host() {
    let placeholder = Value::PipeSubstitution(Arc::new(PipeSubstitution { start: 7, end: 8 }));
    let function = Value::FunctionExpression(identity_function(7, 30));
    for argument in [placeholder, function] {
        let program = program(vec![BodyItem::ReturnStatement(ReturnStatement {
            start: 0,
            end: 30,
            argument: argument.clone(),
        })]);
        let mut memory = ProgramMemory::new();
        let mut cursor = Cursor::start();
        let request = execute(&program, &mut memory, BodyType::Block, &mut cursor).unwrap().unwrap();
        assert_eq!(request.expression(), Some(argument.clone()));
        assert_eq!(request, Request::Return { expression: argument });
        assert_eq!(memory.return_, None);
    }
}

#[test]
fn an_expression_that_is_no_call_does_nothing() {
    let program = program(vec![BodyItem::ExpressionStatement(ExpressionStatement {
        start: 0,
        end: 1,
        expression: name("nothing", 0, 1),
    })]);
    let mut memory = ProgramMemory::new();
    run_to_end(&program, &mut memory, BodyType::Root);
    assert_eq!(memory, ProgramMemory::new());
}

#[test]
fn the_variables_of_one_declaration_are_bound_in_order() {
    let program = program(vec![BodyItem::VariableDeclaration(VariableDeclaration {
        start: 0,
        end: 30,
        declarations: vec![
            VariableDeclarator { start: 0, end: 5, id: identifier("a", 0, 1), init: literal(1, 4, 5) },
            VariableDeclarator {
                start: 7,
                end: 16,
                id: identifier("b", 7, 8),
                init: plus(name("a", 11, 12), literal(1, 15, 16), 11, 16),
            },
            VariableDeclarator { start: 18, end: 23, id: identifier("c", 18, 19), init: name("b", 22, 23) },
        ],
    })]);
    let mut memory = ProgramMemory::new();
    let mut cursor = Cursor::start();
    let request = execute(&program, &mut memory, BodyType::Root, &mut cursor).unwrap().unwrap();
    assert_eq!(cursor, Cursor { statement: 0, declaration: 2 });
    request.complete(user(2, 0, 0), &mut memory).unwrap();
    assert_eq!(execute(&program, &mut memory, BodyType::Root, &mut cursor).unwrap(), None);
    assert_eq!(cursor, Cursor { statement: 1, declaration: 0 });
    assert_eq!(memory.get("c", SourceRange([0, 0])).unwrap(), &user(2, 0, 0));
}

#[test]
fn completing_a_declaration_twice_is_a_redefinition() {
    let mut memory = ProgramMemory::new();
    let request = || Request::Declare {
        name: "a".to_string(),
        expression: literal(1, 0, 1),
        source_range: SourceRange([4, 9]),
    };
    request().complete(user(1, 0, 0), &mut memory).unwrap();
    let error = request().complete(user(2, 0, 0), &mut memory).unwrap_err();
    assert_eq!(error.kind(), ErrorKind::ValueAlreadyDefined);
    assert_eq!(error.source_ranges(), vec![SourceRange([4, 9])]);
    assert_eq!(memory.get("a", SourceRange([0, 0])).unwrap(), &user(1, 0, 0));
}

#[test]
fn pipe_info_starts_outside_any_pipeline() {
    let info = PipeInfo::new();
    assert!(info.previous_results.is_empty());
    assert!(!info.is_in_pipe);
    assert_eq!(info.index, 0);
    assert!(info.body.is_empty());
    assert_eq!(PipeInfo::default(), info);
}

#[test]
fn an_error_of_a_call_is_reported_from_the_call_first() {
    let item = function_in(&ProgramMemory::new());
    let error = item.call_fn(&[]).unwrap_err().in_call(SourceRange([52, 57]));
    assert_eq!(error.kind(), ErrorKind::Type);
    assert_eq!(error.message(), "Expected 1 arguments, got 0");
    assert_eq!(error.source_ranges(), vec![SourceRange([52, 57]), SourceRange([12, 40])]);
    let error = error.in_call(SourceRange([1, 2]));
    assert_eq!(error.source_ranges(), vec![SourceRange([1, 2]), SourceRange([52, 57]), SourceRange([12, 40])]);
}

#[test]
fn only_the_error_of_a_call_is_reported_from_the_call() {
    let error = || function_in(&ProgramMemory::new()).call_fn(&[]).unwrap_err();
    let call = Request::Call {
        function: function_in(&ProgramMemory::new()),
        arguments: vec![],
        source_range: SourceRange([52, 57]),
    };
    assert_eq!(call.failed(error()).source_ranges(), vec![SourceRange([52, 57]), SourceRange([12, 40])]);
    assert_eq!(call.failed(error()).message(), error().message());
    assert_eq!(call.failed(error()).kind(), ErrorKind::Type);
    let others = [
        Request::Return { expression: literal(1, 0, 1) },
        Request::Declare { name: "a".to_string(), expression: literal(1, 0, 1), source_range: SourceRange([4, 9]) },
    ];
    for request in others {
        assert_eq!(request.failed(error()), error());
    }
}

#[test]
fn execution_keeps_every_name_bound_once() {
    let program = program(vec![
        declare("a", literal(1, 10, 11), 0, 11),
        declare("f", Value::FunctionExpression(identity_function(26, 50)), 22, 50),
        declare("b", name("a", 62, 63), 52, 63),
    ]);
    let mut memory = ProgramMemory::new();
    run_to_end(&program, &mut memory, BodyType::Root);
    let mut names: Vec<&str> = memory.root.iter().map(|binding| binding.name.as_str()).collect();
    assert_eq!(names, vec!["a", "f", "b"]);
    names.sort();
    names.dedup();
    assert_eq!(names.len(), 3);
    let copy = memory.clone();
    assert_eq!(copy, memory);
}
