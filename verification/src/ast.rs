//! The abstract syntax tree that the core executes.
//!
//! Every node carries the byte offsets of its start and its end in the
//! program text. The tree is immutable: an expression holds its node behind
//! a shared pointer, and a copy of an expression is the same expression.

use std::sync::Arc;
use vstd::prelude::*;
use crate::json::JsonValue;
use crate::source::SourceRange;

verus! {

/// A program: a sequence of body items, executed in source order.
#[derive(Debug, Clone, PartialEq)]
pub struct Program {
    pub start: usize,
    pub end: usize,
    pub body: Vec<BodyItem>,
}

/// A statement.
#[derive(Debug, Clone, PartialEq)]
pub enum BodyItem {
    ExpressionStatement(ExpressionStatement),
    VariableDeclaration(VariableDeclaration),
    ReturnStatement(ReturnStatement),
}

/// An expression. The tree is immutable, and a copy of an expression shares
/// its node.
#[derive(Debug, PartialEq)]
pub enum Value {
    Literal(Arc<Literal>),
    Identifier(Arc<Identifier>),
    BinaryExpression(Arc<BinaryExpression>),
    FunctionExpression(Arc<FunctionExpression>),
    CallExpression(Arc<CallExpression>),
    PipeExpression(Arc<PipeExpression>),
    PipeSubstitution(Arc<PipeSubstitution>),
    ArrayExpression(Arc<ArrayExpression>),
    ObjectExpression(Arc<ObjectExpression>),
    MemberExpression(Arc<MemberExpression>),
    UnaryExpression(Arc<UnaryExpression>),
}

impl Clone for Value {
    fn clone(&self) -> (r: Self)
        ensures
            r == *self,
    {
        match self {
            Value::Literal(n) => Value::Literal(n.clone()),
            Value::Identifier(n) => Value::Identifier(n.clone()),
            Value::BinaryExpression(n) => Value::BinaryExpression(n.clone()),
            Value::FunctionExpression(n) => Value::FunctionExpression(n.clone()),
            Value::CallExpression(n) => Value::CallExpression(n.clone()),
            Value::PipeExpression(n) => Value::PipeExpression(n.clone()),
            Value::PipeSubstitution(n) => Value::PipeSubstitution(n.clone()),
            Value::ArrayExpression(n) => Value::ArrayExpression(n.clone()),
            Value::ObjectExpression(n) => Value::ObjectExpression(n.clone()),
            Value::MemberExpression(n) => Value::MemberExpression(n.clone()),
            Value::UnaryExpression(n) => Value::UnaryExpression(n.clone()),
        }
    }
}

/// An expression in statement position.
#[derive(Debug, Clone, PartialEq)]
pub struct ExpressionStatement {
    pub start: usize,
    pub end: usize,
    pub expression: Value,
}

/// A declaration of one or more variables.
#[derive(Debug, Clone, PartialEq)]
pub struct VariableDeclaration {
    pub start: usize,
    pub end: usize,
    pub declarations: Vec<VariableDeclarator>,
}

/// One variable and the expression that gives its value.
#[derive(Debug, Clone, PartialEq)]
pub struct VariableDeclarator {
    pub start: usize,
    pub end: usize,
    /// The variable.
    pub id: Identifier,
    /// The expression that gives the value.
    pub init: Value,
}

/// A return statement.
#[derive(Debug, Clone, PartialEq)]
pub struct ReturnStatement {
    pub start: usize,
    pub end: usize,
    pub argument: Value,
}

/// A literal value.
#[derive(Debug, Clone, PartialEq)]
pub struct Literal {
    pub start: usize,
    pub end: usize,
    pub value: JsonValue,
    /// The literal as it is written.
    pub raw: String,
}

/// A name.
#[derive(Debug, Clone, PartialEq)]
pub struct Identifier {
    pub start: usize,
    pub end: usize,
    pub name: String,
}

/// The placeholder `%` for the previous result of a pipeline.
#[derive(Debug, Clone, PartialEq)]
pub struct PipeSubstitution {
    pub start: usize,
    pub end: usize,
}

/// The operator of a binary expression.
#[derive(Debug, Clone, Copy, PartialEq, Eq, Structural)]
pub enum BinaryOperator {
    /// `+`
    Add,
    /// `-`
    Sub,
    /// `*`
    Mul,
    /// `/`
    Div,
    /// `%`
    Mod,
    /// `==`
    Equal,
    /// `!=`
    NotEqual,
    /// `<`
    Less,
    /// `<=`
    LessOrEqual,
    /// `>`
    Greater,
    /// `>=`
    GreaterOrEqual,
}

/// An expression with two operands.
#[derive(Debug, Clone, PartialEq)]
pub struct BinaryExpression {
    pub start: usize,
    pub end: usize,
    pub operator: BinaryOperator,
    pub left: Value,
    pub right: Value,
}

/// The operator of a unary expression.
#[derive(Debug, Clone, Copy, PartialEq, Eq, Structural)]
pub enum UnaryOperator {
    /// Negation, `-`.
    Neg,
    /// Logical not, `!`.
    Not,
}

/// An expression with one operand.
#[derive(Debug, Clone, PartialEq)]
pub struct UnaryExpression {
    pub start: usize,
    pub end: usize,
    pub operator: UnaryOperator,
    pub argument: Value,
}

/// A member of an object or an element of an array.
#[derive(Debug, Clone, PartialEq)]
pub struct MemberExpression {
    pub start: usize,
    pub end: usize,
    pub object: Value,
    pub property: Value,
    /// Whether the property is computed (`a[b]`) or named (`a.b`).
    pub computed: bool,
}

/// An array of expressions.
#[derive(Debug, Clone, PartialEq)]
pub struct ArrayExpression {
    pub start: usize,
    pub end: usize,
    pub elements: Vec<Value>,
}

/// An object of keyed expressions.
#[derive(Debug, Clone, PartialEq)]
pub struct ObjectExpression {
    pub start: usize,
    pub end: usize,
    pub properties: Vec<ObjectProperty>,
}

/// One key of an object and the expression that gives its value.
#[derive(Debug, Clone, PartialEq)]
pub struct ObjectProperty {
    pub start: usize,
    pub end: usize,
    pub key: Identifier,
    pub value: Value,
}

/// A call of a named function.
#[derive(Debug, Clone, PartialEq)]
pub struct CallExpression {
    pub start: usize,
    pub end: usize,
    pub callee: Identifier,
    pub arguments: Vec<Value>,
}

/// A pipeline: each stage after the first receives the result of the one
/// before it.
#[derive(Debug, Clone, PartialEq)]
pub struct PipeExpression {
    pub start: usize,
    pub end: usize,
    pub body: Vec<Value>,
}

/// A function: its parameters and its body.
#[derive(Debug, Clone, PartialEq)]
pub struct FunctionExpression {
    pub start: usize,
    pub end: usize,
    pub params: Vec<Identifier>,
    pub body: Program,
}

impl Value {
    /// The byte offset at which the expression starts.
    pub open spec fn spec_start(&self) -> usize {
        match self {
            Value::Literal(n) => n.start,
            Value::Identifier(n) => n.start,
            Value::BinaryExpression(n) => n.start,
            Value::FunctionExpression(n) => n.start,
            Value::CallExpression(n) => n.start,
            Value::PipeExpression(n) => n.start,
            Value::PipeSubstitution(n) => n.start,
            Value::ArrayExpression(n) => n.start,
            Value::ObjectExpression(n) => n.start,
            Value::MemberExpression(n) => n.start,
            Value::UnaryExpression(n) => n.start,
        }
    }

    /// The byte offset at which the expression ends.
    pub open spec fn spec_end(&self) -> usize {
        match self {
            Value::Literal(n) => n.end,
            Value::Identifier(n) => n.end,
            Value::BinaryExpression(n) => n.end,
            Value::FunctionExpression(n) => n.end,
            Value::CallExpression(n) => n.end,
            Value::PipeExpression(n) => n.end,
            Value::PipeSubstitution(n) => n.end,
            Value::ArrayExpression(n) => n.end,
            Value::ObjectExpression(n) => n.end,
            Value::MemberExpression(n) => n.end,
            Value::UnaryExpression(n) => n.end,
        }
    }

    /// The span of the expression.
    pub open spec fn spec_source_range(&self) -> SourceRange {
        SourceRange::new(self.spec_start(), self.spec_end())
    }

    /// The byte offset at which the expression starts.
    #[verifier::when_used_as_spec(spec_start)]
    pub fn start(&self) -> (r: usize)
        ensures
            r == self.spec_start(),
    {
        match self {
            Value::Literal(n) => n.start,
            Value::Identifier(n) => n.start,
            Value::BinaryExpression(n) => n.start,
            Value::FunctionExpression(n) => n.start,
            Value::CallExpression(n) => n.start,
            Value::PipeExpression(n) => n.start,
            Value::PipeSubstitution(n) => n.start,
            Value::ArrayExpression(n) => n.start,
            Value::ObjectExpression(n) => n.start,
            Value::MemberExpression(n) => n.start,
            Value::UnaryExpression(n) => n.start,
        }
    }

    /// The byte offset at which the expression ends.
    #[verifier::when_used_as_spec(spec_end)]
    pub fn end(&self) -> (r: usize)
        ensures
            r == self.spec_end(),
    {
        match self {
            Value::Literal(n) => n.end,
            Value::Identifier(n) => n.end,
            Value::BinaryExpression(n) => n.end,
            Value::FunctionExpression(n) => n.end,
            Value::CallExpression(n) => n.end,
            Value::PipeExpression(n) => n.end,
            Value::PipeSubstitution(n) => n.end,
            Value::ArrayExpression(n) => n.end,
            Value::ObjectExpression(n) => n.end,
            Value::MemberExpression(n) => n.end,
            Value::UnaryExpression(n) => n.end,
        }
    }

    /// The span of the expression.
    #[verifier::when_used_as_spec(spec_source_range)]
    pub fn source_range(&self) -> (r: SourceRange)
        ensures
            r == self.spec_source_range(),
    {
        SourceRange::new(self.start(), self.end())
    }
}

impl Identifier {
    /// The span of the name.
    pub open spec fn spec_source_range(&self) -> SourceRange {
        SourceRange::new(self.start, self.end)
    }

    /// The span of the name.
    #[verifier::when_used_as_spec(spec_source_range)]
    pub fn source_range(&self) -> (r: SourceRange)
        ensures
            r == self.spec_source_range(),
    {
        SourceRange::new(self.start, self.end)
    }
}

impl CallExpression {
    /// The span of the call.
    pub open spec fn spec_source_range(&self) -> SourceRange {
        SourceRange::new(self.start, self.end)
    }

    /// The span of the call.
    #[verifier::when_used_as_spec(spec_source_range)]
    pub fn source_range(&self) -> (r: SourceRange)
        ensures
            r == self.spec_source_range(),
    {
        SourceRange::new(self.start, self.end)
    }
}

impl FunctionExpression {
    /// The span of the function.
    pub open spec fn spec_source_range(&self) -> SourceRange {
        SourceRange::new(self.start, self.end)
    }

    /// The span of the function.
    #[verifier::when_used_as_spec(spec_source_range)]
    pub fn source_range(&self) -> (r: SourceRange)
        ensures
            r == self.spec_source_range(),
    {
        SourceRange::new(self.start, self.end)
    }
}

impl PipeSubstitution {
    /// The span of the placeholder.
    pub open spec fn spec_source_range(&self) -> SourceRange {
        SourceRange::new(self.start, self.end)
    }

    /// The span of the placeholder.
    #[verifier::when_used_as_spec(spec_source_range)]
    pub fn source_range(&self) -> (r: SourceRange)
        ensures
            r == self.spec_source_range(),
    {
        SourceRange::new(self.start, self.end)
    }
}

/// The spans of a list of expressions, in order.
pub open spec fn value_ranges(values: Seq<Value>) -> Seq<SourceRange> {
    Seq::new(values.len(), |i: int| values[i].source_range())
}

/// The spans of a list of expressions, in order.
pub fn source_ranges_of_values(values: &Vec<Value>) -> (r: Vec<SourceRange>)
    ensures
        r@ == value_ranges(values@),
{
    let mut out: Vec<SourceRange> = Vec::new();
    let mut i: usize = 0;
    while i < values.len()
        invariant
            i <= values.len(),
            out@.len() == i,
            forall|j: int| 0 <= j < i ==> out@[j] == values@[j].source_range(),
        decreases values.len() - i,
    {
        out.push(values[i].source_range());
        i = i + 1;
    }
    assert(out@ =~= value_ranges(values@));
    out
}

} // verus!
