//! The executor for the AST.
//!
//! A body is executed statement by statement, in source order. The library
//! does what needs neither arithmetic nor the geometry engine: it binds
//! literals, names and functions, hands back literals and names, records the
//! arguments of `show`, and resolves the calls of statements. Where a
//! statement needs more, execution stops with a [`Request`] that says what
//! the host is to do. The host does it and delivers the result with
//! [`Request::complete`], which may ask again for the same statement: a call
//! asks for each of its arguments that needs evaluation, from left to right.
//! Where the host fails, [`Request::failed`] gives the error of the
//! statement. Then the host executes on from where the [`Cursor`] stands.

use std::sync::Arc;
use vstd::prelude::*;
use crate::ast::{
    BodyItem, CallExpression, ExpressionStatement, Identifier, Literal, Program, ReturnStatement, Value,
    VariableDeclarator,
};
use crate::errors::{message_about, semantic_error, ErrorKind, KclError, KclErrorView};
use crate::memory::{
    item_views, MemoryFunction, MemoryItem, MemoryItemView, ProgramMemory, ProgramMemoryView,
    ProgramReturn, ProgramReturnView,
};
use crate::source::{Metadata, SourceRange};

verus! {

/// The kind of body that is executed. `show` is legal in a root body only.
#[derive(Debug, Clone, Copy, PartialEq, Eq, Structural)]
pub enum BodyType {
    Root,
    Sketch,
    Block,
}

/// The state that a pipeline carries from stage to stage.
#[derive(Debug, PartialEq)]
pub struct PipeInfo {
    /// The results of the stages so far, in order.
    pub previous_results: Vec<MemoryItem>,
    /// Whether a pipeline is being evaluated.
    pub is_in_pipe: bool,
    /// The stage that is being evaluated.
    pub index: usize,
    /// The stages of the pipeline, as they are written.
    pub body: Vec<Value>,
}

impl PipeInfo {
    /// The state outside any pipeline.
    pub fn new() -> (r: Self)
        ensures
            r.previous_results@.len() == 0,
            !r.is_in_pipe,
            r.index == 0,
            r.body@.len() == 0,
    {
        Self { previous_results: Vec::new(), is_in_pipe: false, index: 0, body: Vec::new() }
    }
}

impl Default for PipeInfo {
    fn default() -> (r: Self)
        ensures
            r.previous_results@.len() == 0,
            !r.is_in_pipe,
            r.index == 0,
            r.body@.len() == 0,
    {
        Self::new()
    }
}

/// How far the execution of a body has come: the statement that is next,
/// and, within a variable declaration, the variable that is next.
#[derive(Debug, Clone, Copy, PartialEq, Eq, Structural)]
pub struct Cursor {
    pub statement: usize,
    pub declaration: usize,
}

impl Cursor {
    /// The start of a body.
    pub fn start() -> (r: Cursor)
        ensures
            r == (Cursor { statement: 0, declaration: 0 }),
    {
        Cursor { statement: 0, declaration: 0 }
    }
}

/// What the host is to do before execution goes on.
#[derive(Debug, PartialEq)]
pub enum Request {
    /// Call `function` with `arguments`, as [`MemoryItem::call_fn`] prepares
    /// it, and run the body to its end. What it hands back is dropped. An
    /// error of the call is reported from `source_range`, the span of the
    /// call, as [`KclError::in_call`] says.
    Call { function: MemoryItem, arguments: Vec<MemoryItem>, source_range: SourceRange },
    /// Evaluate `expression` and give its value to the variable `name`.
    Declare { name: String, expression: Value, source_range: SourceRange },
    /// Evaluate `expression` and hand its value back as the value of the
    /// body.
    Return { expression: Value },
    /// Evaluate the argument at the position `index` of the call `call`, a
    /// statement of a body of the kind `options`. The arguments before it
    /// have the values `resolved`; those behind it are resolved when this
    /// one is delivered.
    Argument { call: Arc<CallExpression>, index: usize, resolved: Vec<MemoryItem>, options: BodyType },
}

/// What a [`Request`] holds.
pub ghost enum RequestView {
    Call { function: MemoryItemView, arguments: Seq<MemoryItemView>, source_range: SourceRange },
    Declare { name: Seq<char>, expression: Value, source_range: SourceRange },
    Return { expression: Value },
    Argument { call: CallExpression, index: usize, resolved: Seq<MemoryItemView>, options: BodyType },
}

impl View for Request {
    type V = RequestView;

    open spec fn view(&self) -> RequestView {
        match self {
            Request::Call { function, arguments, source_range } => RequestView::Call {
                function: function@,
                arguments: item_views(arguments@),
                source_range: *source_range,
            },
            Request::Declare { name, expression, source_range } => RequestView::Declare {
                name: name@,
                expression: *expression,
                source_range: *source_range,
            },
            Request::Return { expression } => RequestView::Return { expression: *expression },
            Request::Argument { call, index, resolved, options } => RequestView::Argument {
                call: **call,
                index: *index,
                resolved: item_views(resolved@),
                options: *options,
            },
        }
    }
}

/// What one statement, or one variable of a declaration, comes to: an
/// error, a request to the host, or nothing more to do; and the memory after
/// it. An error leaves the memory as it was.
pub ghost struct Outcome {
    pub result: Result<Option<RequestView>, KclErrorView>,
    pub memory: ProgramMemoryView,
}

/// The value of a literal: a user value that came from the literal's span.
pub open spec fn literal_item(literal: Literal) -> MemoryItemView {
    MemoryItemView::UserVal {
        value: literal.value@,
        meta: seq![Metadata { source_range: SourceRange::new(literal.start, literal.end) }],
    }
}

/// The value of a function expression that is declared at `source_range`
/// in the memory `memory`: it keeps the memory as it stands there.
pub open spec fn function_item(
    expression: crate::ast::FunctionExpression,
    source_range: SourceRange,
    memory: ProgramMemoryView,
) -> MemoryItemView {
    MemoryItemView::Function {
        func: Some(MemoryFunction::Closure),
        expression,
        memory: Box::new(memory),
        meta: seq![Metadata { source_range }],
    }
}

/// What a call in statement position comes to once its arguments have the
/// values `arguments`.
///
/// The name `show` records the arguments, as they are written, as what the
/// body hands back; outside a root body it is an error, and nothing is
/// recorded. Any other name must have a value, which the host is asked to
/// call.
pub open spec fn called(
    call: CallExpression,
    memory: ProgramMemoryView,
    options: BodyType,
    arguments: Seq<MemoryItemView>,
) -> Outcome {
    let name = call.callee.name@;
    if name == "show"@ {
        if options != BodyType::Root {
            Outcome {
                result: Err(
                    semantic_error("Cannot call show outside of a root"@, call.source_range()),
                ),
                memory,
            }
        } else {
            Outcome {
                result: Ok(None),
                memory: memory.returning(ProgramReturnView::Arguments(call.arguments@)),
            }
        }
    } else if memory.root.contains_key(name) {
        Outcome {
            result: Ok(
                Some(
                    RequestView::Call {
                        function: memory.root[name],
                        arguments,
                        source_range: call.source_range(),
                    },
                ),
            ),
            memory,
        }
    } else {
        Outcome {
            result: Err(semantic_error("No such name "@ + name + " defined"@, call.source_range())),
            memory,
        }
    }
}

/// The value of an argument that needs no evaluation. A literal gives its
/// value, and a name the value it has in `memory`, or the error for a name
/// without one. Every other expression gives `None`: it is for the host to
/// evaluate.
pub open spec fn argument_value(argument: Value, memory: ProgramMemoryView) -> Option<
    Result<MemoryItemView, KclErrorView>,
> {
    match argument {
        Value::Literal(literal) => Some(Ok(literal_item(*literal))),
        Value::Identifier(identifier) => Some(
            memory.get(identifier.name@, identifier.source_range()),
        ),
        _ => None,
    }
}

/// What a call in statement position comes to, from the argument at the
/// position `from` on, where the arguments before it have the values
/// `resolved`.
///
/// The arguments are evaluated from left to right, as [`argument_value`]
/// says; for an expression that needs evaluation the host is asked. The
/// first name without a value is an error. Behind the last argument the call
/// is made, as [`called`] says.
pub open spec fn call_from(
    call: CallExpression,
    memory: ProgramMemoryView,
    options: BodyType,
    from: int,
    resolved: Seq<MemoryItemView>,
) -> Outcome
    decreases call.arguments@.len() - from,
{
    if from < 0 || from >= call.arguments@.len() {
        called(call, memory, options, resolved)
    } else {
        match argument_value(call.arguments@[from], memory) {
            Some(Ok(value)) => call_from(call, memory, options, from + 1, resolved.push(value)),
            Some(Err(e)) => Outcome { result: Err(e), memory },
            None => Outcome {
                result: Ok(
                    Some(RequestView::Argument { call, index: from as usize, resolved, options }),
                ),
                memory,
            },
        }
    }
}

/// What a call in statement position comes to: its arguments are evaluated
/// first, from left to right, and then the call is made.
pub open spec fn call_statement(
    call: CallExpression,
    memory: ProgramMemoryView,
    options: BodyType,
) -> Outcome {
    call_from(call, memory, options, 0, Seq::empty())
}

/// `show` is legal in a root body only: anywhere else a call of `show` is a
/// `Semantic` error at the call, and the memory stays as it was.
pub proof fn lemma_show_outside_root(
    call: CallExpression,
    memory: ProgramMemoryView,
    options: BodyType,
    arguments: Seq<MemoryItemView>,
)
    requires
        call.callee.name@ == "show"@,
        options != BodyType::Root,
    ensures
        called(call, memory, options, arguments).result == Err::<Option<RequestView>, KclErrorView>(
            semantic_error("Cannot call show outside of a root"@, call.source_range()),
        ),
        called(call, memory, options, arguments).memory == memory,
{
}

/// In a root body a call of `show` records its arguments, as they are
/// written, and changes nothing else.
pub proof fn lemma_show_at_root(
    call: CallExpression,
    memory: ProgramMemoryView,
    arguments: Seq<MemoryItemView>,
)
    requires
        call.callee.name@ == "show"@,
    ensures
        called(call, memory, BodyType::Root, arguments).result == Ok::<
            Option<RequestView>,
            KclErrorView,
        >(None),
        called(call, memory, BodyType::Root, arguments).memory.return_ == Some(
            ProgramReturnView::Arguments(call.arguments@),
        ),
        called(call, memory, BodyType::Root, arguments).memory.root == memory.root,
{
}

/// Outside a root body no call in statement position changes the memory,
/// whatever its name and however far its arguments are resolved: nothing is
/// handed back.
pub proof fn lemma_call_outside_root_keeps_memory(
    call: CallExpression,
    memory: ProgramMemoryView,
    options: BodyType,
    from: int,
    resolved: Seq<MemoryItemView>,
)
    requires
        options != BodyType::Root,
    ensures
        call_from(call, memory, options, from, resolved).memory == memory,
    decreases call.arguments@.len() - from,
{
    if 0 <= from < call.arguments@.len() {
        match argument_value(call.arguments@[from], memory) {
            Some(Ok(value)) => {
                lemma_call_outside_root_keeps_memory(
                    call,
                    memory,
                    options,
                    from + 1,
                    resolved.push(value),
                );
            },
            _ => {},
        }
    }
}

/// The call that an expression is, if it is one.
pub open spec fn call_of(expression: Value) -> Option<CallExpression> {
    match expression {
        Value::CallExpression(call) => Some(*call),
        _ => None,
    }
}

/// No call in statement position that fails changes the memory.
pub proof fn lemma_call_failure_keeps_memory(
    call: CallExpression,
    memory: ProgramMemoryView,
    options: BodyType,
    from: int,
    resolved: Seq<MemoryItemView>,
)
    requires
        call_from(call, memory, options, from, resolved).result is Err,
    ensures
        call_from(call, memory, options, from, resolved).memory == memory,
    decreases call.arguments@.len() - from,
{
    if 0 <= from < call.arguments@.len() {
        match argument_value(call.arguments@[from], memory) {
            Some(Ok(value)) => {
                lemma_call_failure_keeps_memory(call, memory, options, from + 1, resolved.push(value));
            },
            _ => {},
        }
    }
}

/// No statement that fails changes the memory.
pub proof fn lemma_failure_keeps_memory(
    program: Program,
    memory: ProgramMemoryView,
    options: BodyType,
    cursor: Cursor,
)
    requires
        cursor.statement < program.body.len(),
        unit(program, memory, options, cursor).result is Err,
    ensures
        unit(program, memory, options, cursor).memory == memory,
        run(program, memory, options, cursor).result == unit(program, memory, options, cursor).result,
        run(program, memory, options, cursor).memory == memory,
        run(program, memory, options, cursor).cursor == cursor,
{
    match program.body@[cursor.statement as int] {
        BodyItem::ExpressionStatement(statement) => {
            match call_of(statement.expression) {
                Some(call) => {
                    lemma_call_failure_keeps_memory(call, memory, options, 0, Seq::empty());
                },
                None => {},
            }
        },
        _ => {},
    }
}

/// What an expression statement comes to: a call is resolved, and every
/// other expression does nothing.
pub open spec fn expression_statement(
    statement: ExpressionStatement,
    memory: ProgramMemoryView,
    options: BodyType,
) -> Outcome {
    match statement.expression {
        Value::CallExpression(call) => call_statement(*call, memory, options),
        _ => Outcome { result: Ok(None), memory },
    }
}

/// What binding `value` to `name` comes to.
pub open spec fn bound(
    memory: ProgramMemoryView,
    name: Seq<char>,
    value: MemoryItemView,
    source_range: SourceRange,
) -> Outcome {
    match memory.add(name, value, source_range) {
        Ok(next) => Outcome { result: Ok(None), memory: next },
        Err(e) => Outcome { result: Err(e), memory },
    }
}

/// What the declaration of one variable comes to.
///
/// A literal, a name and a function expression are bound at once, at the
/// span of the initializer; a function keeps the memory as it stands before
/// the function itself is bound. A bare pipe placeholder is an error. For every
/// other expression the host is asked to evaluate it.
pub open spec fn declaration(declarator: VariableDeclarator, memory: ProgramMemoryView) -> Outcome {
    let name = declarator.id.name@;
    let source_range = declarator.init.source_range();
    match declarator.init {
        Value::Literal(literal) => bound(memory, name, literal_item(*literal), source_range),
        Value::Identifier(identifier) => match memory.get(
            identifier.name@,
            identifier.source_range(),
        ) {
            Ok(value) => bound(memory, name, value, source_range),
            Err(e) => Outcome { result: Err(e), memory },
        },
        Value::FunctionExpression(function) => bound(
            memory,
            name,
            function_item(*function, source_range, memory),
            source_range,
        ),
        Value::PipeSubstitution(pipe_substitution) => Outcome {
            result: Err(
                semantic_error(
                    "pipe substitution not implemented for declaration of variable "@ + name,
                    pipe_substitution.source_range(),
                ),
            ),
            memory,
        },
        expression => Outcome {
            result: Ok(Some(RequestView::Declare { name, expression, source_range })),
            memory,
        },
    }
}

/// A function runs in the memory of its declaration: whatever is bound
/// after the function was declared, the function value stays as it is, and a
/// call binds its parameters in the memory as it stood at the declaration.
pub proof fn lemma_lexical_closure(
    function: crate::ast::FunctionExpression,
    memory: ProgramMemoryView,
    name: Seq<char>,
    source_range: SourceRange,
    later: Seq<char>,
    value: MemoryItemView,
    later_range: SourceRange,
)
    requires
        memory.add(name, function_item(function, source_range, memory), source_range) is Ok,
        memory.add(name, function_item(function, source_range, memory), source_range)->Ok_0.add(
            later,
            value,
            later_range,
        ) is Ok,
    ensures
        ({
            let declared = memory.add(
                name,
                function_item(function, source_range, memory),
                source_range,
            )->Ok_0;
            let after = declared.add(later, value, later_range)->Ok_0;
            &&& after.root.contains_key(name)
            &&& after.root[name] == function_item(function, source_range, memory)
            &&& *after.root[name]->Function_memory == memory
            &&& !after.root[name]->Function_memory.root.contains_key(later)
        }),
{
}

/// What a return statement comes to: a literal hands back its value, a
/// name hands back the value it has, and every other expression is for the
/// host to evaluate.
pub open spec fn return_statement(statement: ReturnStatement, memory: ProgramMemoryView) -> Outcome {
    match statement.argument {
        Value::Literal(literal) => Outcome {
            result: Ok(None),
            memory: memory.returning(ProgramReturnView::Value(literal_item(*literal))),
        },
        Value::Identifier(identifier) => match memory.get(
            identifier.name@,
            identifier.source_range(),
        ) {
            Ok(value) => Outcome {
                result: Ok(None),
                memory: memory.returning(ProgramReturnView::Value(value)),
            },
            Err(e) => Outcome { result: Err(e), memory },
        },
        expression => Outcome { result: Ok(Some(RequestView::Return { expression })), memory },
    }
}

/// How an execution stops: with an error, with a request to the host, or,
/// where the result is `Ok(None)`, at the end of the body; the memory at
/// that point; and where execution goes on from.
pub ghost struct Stop {
    pub result: Result<Option<RequestView>, KclErrorView>,
    pub memory: ProgramMemoryView,
    pub cursor: Cursor,
}

/// How many variables of the declaration at `cursor` are still to come.
pub open spec fn declarations_left(program: Program, cursor: Cursor) -> int {
    if cursor.statement < program.body.len() {
        match program.body@[cursor.statement as int] {
            BodyItem::VariableDeclaration(d) => if cursor.declaration < d.declarations.len() {
                d.declarations.len() - cursor.declaration
            } else {
                0
            },
            _ => 0,
        }
    } else {
        0
    }
}

/// What the statement at `cursor`, or the variable at `cursor` of a
/// declaration, comes to. Behind the last variable of a declaration there is
/// nothing to do.
pub open spec fn unit(
    program: Program,
    memory: ProgramMemoryView,
    options: BodyType,
    cursor: Cursor,
) -> Outcome
    recommends
        cursor.statement < program.body.len(),
{
    match program.body@[cursor.statement as int] {
        BodyItem::ExpressionStatement(statement) => expression_statement(statement, memory, options),
        BodyItem::VariableDeclaration(d) => if cursor.declaration < d.declarations.len() {
            declaration(d.declarations@[cursor.declaration as int], memory)
        } else {
            Outcome { result: Ok(None), memory }
        },
        BodyItem::ReturnStatement(statement) => return_statement(statement, memory),
    }
}

/// The position behind the statement, or the variable, at `cursor`.
pub open spec fn next(program: Program, cursor: Cursor) -> Cursor
    recommends
        cursor.statement < program.body.len(),
{
    if declarations_left(program, cursor) > 0 {
        Cursor { statement: cursor.statement, declaration: (cursor.declaration + 1) as usize }
    } else {
        Cursor { statement: (cursor.statement + 1) as usize, declaration: 0 }
    }
}

/// The execution of `program` from `cursor` on, up to the first statement
/// that fails or that needs the host.
///
/// After an error the cursor stands at the statement that failed. After a
/// request it stands behind the statement, or the variable, that made it.
pub open spec fn run(
    program: Program,
    memory: ProgramMemoryView,
    options: BodyType,
    cursor: Cursor,
) -> Stop
    decreases program.body.len() - cursor.statement, declarations_left(program, cursor),
{
    if cursor.statement >= program.body.len() {
        Stop { result: Ok(None), memory, cursor }
    } else {
        let outcome = unit(program, memory, options, cursor);
        match outcome.result {
            Err(e) => Stop { result: Err(e), memory: outcome.memory, cursor },
            Ok(Some(request)) => Stop {
                result: Ok(Some(request)),
                memory: outcome.memory,
                cursor: next(program, cursor),
            },
            Ok(None) => run(program, outcome.memory, options, next(program, cursor)),
        }
    }
}

/// Whether `result` is what `expected` says.
pub open spec fn result_is(
    result: Result<Option<Request>, KclError>,
    expected: Result<Option<RequestView>, KclErrorView>,
) -> bool {
    match expected {
        Ok(None) => result is Ok && result->Ok_0 is None,
        Ok(Some(request)) => result is Ok && result->Ok_0 is Some && result->Ok_0->Some_0@
            == request,
        Err(e) => result is Err && result->Err_0@ == e,
    }
}

/// The value of a literal.
pub fn literal_value(literal: &Literal) -> (r: MemoryItem)
    ensures
        r@ == literal_item(*literal),
{
    let mut meta: Vec<Metadata> = Vec::new();
    meta.push(Metadata { source_range: SourceRange::new(literal.start, literal.end) });
    assert(meta@ =~= seq![Metadata { source_range: SourceRange::new(literal.start, literal.end) }]);
    MemoryItem::UserVal { value: literal.value.clone(), meta }
}

/// Executes a call in statement position from the argument at the position
/// `from` on, as [`call_from`] says. `args` holds the values of the
/// arguments before it.
pub fn resolve_call(
    call: &Arc<CallExpression>,
    memory: &mut ProgramMemory,
    options: BodyType,
    from: usize,
    args: Vec<MemoryItem>,
) -> (r: Result<Option<Request>, KclError>)
    ensures
        result_is(r, call_from(**call, old(memory)@, options, from as int, item_views(args@)).result),
        final(memory)@ == call_from(
            **call,
            old(memory)@,
            options,
            from as int,
            item_views(args@),
        ).memory,
        old(memory).well_formed() ==> final(memory).well_formed(),
{
    let ghost first = item_views(args@);
    let mut values = args;
    let mut i: usize = from;
    while i < call.arguments.len()
        invariant
            *memory == *old(memory),
            from <= i,
            first == item_views(args@),
            call_from(**call, memory@, options, from as int, first) == call_from(
                **call,
                memory@,
                options,
                i as int,
                item_views(values@),
            ),
        decreases call.arguments.len() - i,
    {
        let ghost before = item_views(values@);
        match &call.arguments[i] {
            Value::Literal(literal) => {
                values.push(literal_value(literal));
                assert(item_views(values@) =~= before.push(literal_item(**literal)));
            },
            Value::Identifier(identifier) => {
                match memory.get(identifier.name.as_str(), identifier.source_range()) {
                    Ok(memory_item) => {
                        values.push(memory_item.clone());
                        assert(item_views(values@) =~= before.push(memory_item@));
                    },
                    Err(e) => {
                        return Err(e);
                    },
                }
            },
            _ => {
                return Ok(
                    Some(Request::Argument { call: call.clone(), index: i, resolved: values, options }),
                );
            },
        }
        i = i + 1;
    }
    let args = values;
    if call.callee.name == String::from_str("show") {
        if options != BodyType::Root {
            return Err(
                KclError::at(
                    ErrorKind::Semantic,
                    String::from_str("Cannot call show outside of a root"),
                    call.source_range(),
                ),
            );
        }
        let arguments = call.arguments.clone();
        assert(arguments@ =~= call.arguments@);
        memory.return_ = Some(ProgramReturn::Arguments(arguments));
        Ok(None)
    } else {
        match memory.lookup(call.callee.name.as_str()) {
            Some(func) => Ok(
                Some(
                    Request::Call {
                        function: func.clone(),
                        arguments: args,
                        source_range: call.source_range(),
                    },
                ),
            ),
            None => Err(
                KclError::at(
                    ErrorKind::Semantic,
                    message_about("No such name ", call.callee.name.as_str(), " defined"),
                    call.source_range(),
                ),
            ),
        }
    }
}

/// Executes a call in statement position, as [`call_statement`] says.
pub fn execute_call(call: &Arc<CallExpression>, memory: &mut ProgramMemory, options: BodyType) -> (r:
    Result<Option<Request>, KclError>)
    ensures
        result_is(r, call_statement(**call, old(memory)@, options).result),
        final(memory)@ == call_statement(**call, old(memory)@, options).memory,
        old(memory).well_formed() ==> final(memory).well_formed(),
{
    let args: Vec<MemoryItem> = Vec::new();
    assert(item_views(args@) =~= Seq::<MemoryItemView>::empty());
    resolve_call(call, memory, options, 0, args)
}

/// Executes the declaration of one variable, as [`declaration`] says.
pub fn execute_declaration(declarator: &VariableDeclarator, memory: &mut ProgramMemory) -> (r:
    Result<Option<Request>, KclError>)
    ensures
        result_is(r, declaration(*declarator, old(memory)@).result),
        final(memory)@ == declaration(*declarator, old(memory)@).memory,
        old(memory).well_formed() ==> final(memory).well_formed(),
{
    let var_name = declarator.id.name.as_str();
    let source_range: SourceRange = declarator.init.source_range();
    match &declarator.init {
        Value::Literal(literal) => {
            match memory.add(var_name, literal_value(literal), source_range) {
                Ok(()) => Ok(None),
                Err(e) => Err(e),
            }
        },
        Value::Identifier(identifier) => {
            let value = match memory.get(identifier.name.as_str(), identifier.source_range()) {
                Ok(value) => value.clone(),
                Err(e) => {
                    return Err(e);
                },
            };
            match memory.add(var_name, value, source_range) {
                Ok(()) => Ok(None),
                Err(e) => Err(e),
            }
        },
        Value::FunctionExpression(function_expression) => {
            let mut meta: Vec<Metadata> = Vec::new();
            meta.push(Metadata { source_range });
            assert(meta@ =~= seq![Metadata { source_range }]);
            let function = MemoryItem::Function {
                expression: function_expression.clone(),
                memory: Arc::new(memory.clone()),
                meta,
                func: Some(MemoryFunction::Closure),
            };
            match memory.add(var_name, function, source_range) {
                Ok(()) => Ok(None),
                Err(e) => Err(e),
            }
        },
        Value::PipeSubstitution(pipe_substitution) => {
            let mut message = String::from_str(
                "pipe substitution not implemented for declaration of variable ",
            );
            message.append(var_name);
            Err(KclError::at(ErrorKind::Semantic, message, pipe_substitution.source_range()))
        },
        expression => Ok(
            Some(
                Request::Declare {
                    name: String::from_str(var_name),
                    expression: expression.clone(),
                    source_range,
                },
            ),
        ),
    }
}

/// Executes a return statement, as [`return_statement`] says.
pub fn execute_return(statement: &ReturnStatement, memory: &mut ProgramMemory) -> (r: Result<
    Option<Request>,
    KclError,
>)
    ensures
        result_is(r, return_statement(*statement, old(memory)@).result),
        final(memory)@ == return_statement(*statement, old(memory)@).memory,
        old(memory).well_formed() ==> final(memory).well_formed(),
{
    match &statement.argument {
        Value::Literal(literal) => {
            memory.return_ = Some(ProgramReturn::Value(literal_value(literal)));
            Ok(None)
        },
        Value::Identifier(identifier) => {
            let value = match memory.get(identifier.name.as_str(), identifier.source_range()) {
                Ok(value) => value.clone(),
                Err(e) => {
                    return Err(e);
                },
            };
            memory.return_ = Some(ProgramReturn::Value(value));
            Ok(None)
        },
        expression => Ok(Some(Request::Return { expression: expression.clone() })),
    }
}

/// Execute a AST's program.
///
/// Executes the body of `program` from `cursor` on, in source order, as
/// [`run`] says: up to its end, where the result is `Ok(None)`; up to the
/// first statement that needs the host, where the result is the request;
/// or up to the first statement that fails. `memory` and `cursor` are left
/// as they stand at that point.
pub fn execute(
    program: &Program,
    memory: &mut ProgramMemory,
    options: BodyType,
    cursor: &mut Cursor,
) -> (r: Result<Option<Request>, KclError>)
    ensures
        result_is(r, run(*program, old(memory)@, options, *old(cursor)).result),
        final(memory)@ == run(*program, old(memory)@, options, *old(cursor)).memory,
        *final(cursor) == run(*program, old(memory)@, options, *old(cursor)).cursor,
        old(memory).well_formed() ==> final(memory).well_formed(),
{
    // Iterate over the body of the program.
    while cursor.statement < program.body.len()
        invariant
            run(*program, old(memory)@, options, *old(cursor)) == run(
                *program,
                memory@,
                options,
                *cursor,
            ),
            old(memory).well_formed() ==> memory.well_formed(),
        decreases program.body.len() - cursor.statement, declarations_left(*program, *cursor),
    {
        let ghost here = *cursor;
        let ghost before = memory@;
        let after = match &program.body[cursor.statement] {
            BodyItem::VariableDeclaration(variable_declaration)
                if cursor.declaration < variable_declaration.declarations.len() => Cursor {
                statement: cursor.statement,
                declaration: cursor.declaration + 1,
            },
            _ => Cursor { statement: cursor.statement + 1, declaration: 0 },
        };
        assert(after == next(*program, here));
        let done = match &program.body[cursor.statement] {
            BodyItem::ExpressionStatement(expression_statement) => {
                if let Value::CallExpression(call_expr) = &expression_statement.expression {
                    execute_call(call_expr, memory, options)
                } else {
                    Ok(None)
                }
            },
            BodyItem::VariableDeclaration(variable_declaration) => {
                if cursor.declaration < variable_declaration.declarations.len() {
                    execute_declaration(
                        &variable_declaration.declarations[cursor.declaration],
                        memory,
                    )
                } else {
                    Ok(None)
                }
            },
            BodyItem::ReturnStatement(return_statement) => execute_return(return_statement, memory),
        };
        assert(result_is(done, unit(*program, before, options, here).result));
        assert(memory@ == unit(*program, before, options, here).memory);
        match done {
            Ok(None) => {
                *cursor = after;
            },
            Ok(Some(request)) => {
                *cursor = after;
                return Ok(Some(request));
            },
            Err(e) => {
                return Err(e);
            },
        }
    }
    Ok(None)
}

impl Request {
    /// The error `error` as it is reported for this request, where the host
    /// failed to do what was asked: the error of a call has the source range
    /// of the call put first, before its own; every other error stays as it
    /// is.
    pub open spec fn reported(request: RequestView, error: KclErrorView) -> KclErrorView {
        match request {
            RequestView::Call { source_range, .. } => KclErrorView {
                source_ranges: seq![source_range] + error.source_ranges,
                ..error
            },
            _ => error,
        }
    }

    /// The error with which the statement that made this request fails,
    /// where the host failed with `error`, as [`Request::reported`] says.
    pub fn failed(&self, error: KclError) -> (r: KclError)
        ensures
            r@ == Request::reported(self@, error@),
    {
        match self {
            Request::Call { source_range, .. } => error.in_call(*source_range),
            _ => error,
        }
    }

    /// What completing this request with `value` comes to: for a declaration
    /// the variable is bound, or the name has a value already; for a return
    /// the memory hands `value` back; for an argument the call goes on with
    /// the arguments behind it, as [`call_from`] says; for a call nothing
    /// changes.
    pub open spec fn completed(
        request: RequestView,
        value: MemoryItemView,
        memory: ProgramMemoryView,
    ) -> Outcome {
        match request {
            RequestView::Call { .. } => Outcome { result: Ok(None), memory },
            RequestView::Declare { name, source_range, .. } => bound(memory, name, value, source_range),
            RequestView::Return { .. } => Outcome {
                result: Ok(None),
                memory: memory.returning(ProgramReturnView::Value(value)),
            },
            RequestView::Argument { call, index, resolved, options } => call_from(
                call,
                memory,
                options,
                index + 1,
                resolved.push(value),
            ),
        }
    }

    /// The expression that the host is to evaluate for this request, where
    /// there is one: none for a call.
    pub open spec fn spec_expression(request: RequestView) -> Option<Value> {
        match request {
            RequestView::Call { .. } => None,
            RequestView::Declare { expression, .. } => Some(expression),
            RequestView::Return { expression } => Some(expression),
            RequestView::Argument { call, index, .. } => if index < call.arguments@.len() {
                Some(call.arguments@[index as int])
            } else {
                None
            },
        }
    }

    /// The expression that the host is to evaluate for this request, where
    /// there is one.
    pub fn expression(&self) -> (r: Option<Value>)
        ensures
            r == Request::spec_expression(self@),
    {
        match self {
            Request::Call { .. } => None,
            Request::Declare { expression, .. } => Some(expression.clone()),
            Request::Return { expression } => Some(expression.clone()),
            Request::Argument { call, index, .. } => {
                if *index < call.arguments.len() {
                    Some(call.arguments[*index].clone())
                } else {
                    None
                }
            },
        }
    }

    /// Completes the statement that made this request.
    ///
    /// `value` is what the host obtained: the value of the expression, or
    /// what the call handed back, which is dropped. The result is the next
    /// request of the same statement, where it has one. An error leaves the
    /// memory as it was.
    pub fn complete(self, value: MemoryItem, memory: &mut ProgramMemory) -> (r: Result<
        Option<Request>,
        KclError,
    >)
        ensures
            result_is(r, Request::completed(self@, value@, old(memory)@).result),
            final(memory)@ == Request::completed(self@, value@, old(memory)@).memory,
            old(memory).well_formed() ==> final(memory).well_formed(),
    {
        match self {
            Request::Call { .. } => Ok(None),
            Request::Declare { name, expression: _, source_range } => {
                match memory.add(name.as_str(), value, source_range) {
                    Ok(()) => Ok(None),
                    Err(e) => Err(e),
                }
            },
            Request::Return { .. } => {
                memory.return_ = Some(ProgramReturn::Value(value));
                Ok(None)
            },
            Request::Argument { call, index, resolved, options } => {
                let ghost before = item_views(resolved@);
                let mut resolved = resolved;
                resolved.push(value);
                assert(item_views(resolved@) =~= before.push(value@));
                let next = if index < call.arguments.len() {
                    index + 1
                } else {
                    call.arguments.len()
                };
                resolve_call(&call, memory, options, next, resolved)
            },
        }
    }
}

} // verus!
