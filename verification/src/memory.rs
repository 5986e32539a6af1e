//! The values that a program computes, and the memory that names them.

use std::sync::Arc;
use vstd::prelude::*;
use crate::ast::{value_ranges, source_ranges_of_values, FunctionExpression, Value};
use crate::errors::{message_about, ErrorKind, KclError, KclErrorView};
use crate::geometry::{
    clone_sketch_groups, sketch_group_views, ExtrudeGroup, ExtrudeGroupView, ExtrudeTransform,
    ExtrudeTransformView, Face, FaceView, Plane, PlaneView, SketchGroup, SketchGroupView,
};
use crate::json::{JsonValue, JsonView};
use crate::source::{ranges_of, source_ranges, Metadata, SourceRange};

verus! {

/// The native callable of a function value.
///
/// There is one: the adapter that binds the arguments of a call to the
/// parameters of a user-defined function and runs its body. A function value
/// that was read back from its serialized form has none, and cannot be
/// called.
#[derive(Debug, Clone, Copy, PartialEq, Eq, Structural)]
pub enum MemoryFunction {
    Closure,
}

/// A value of the language.
#[derive(Debug, PartialEq)]
pub enum MemoryItem {
    UserVal { value: JsonValue, meta: Vec<Metadata> },
    SketchGroup(Box<SketchGroup>),
    SketchGroups { value: Vec<Box<SketchGroup>> },
    ExtrudeGroup(Box<ExtrudeGroup>),
    ExtrudeTransform(ExtrudeTransform),
    Plane(Box<Plane>),
    Face(Box<Face>),
    /// A function: its native callable, its expression, and the memory as
    /// it stood where the function was declared, in which its body runs.
    Function {
        func: Option<MemoryFunction>,
        expression: Arc<FunctionExpression>,
        memory: Arc<ProgramMemory>,
        meta: Vec<Metadata>,
    },
}

/// What a [`MemoryItem`] holds.
pub ghost enum MemoryItemView {
    UserVal { value: JsonView, meta: Seq<Metadata> },
    SketchGroup(SketchGroupView),
    SketchGroups { value: Seq<SketchGroupView> },
    ExtrudeGroup(ExtrudeGroupView),
    ExtrudeTransform(ExtrudeTransformView),
    Plane(PlaneView),
    Face(FaceView),
    Function {
        func: Option<MemoryFunction>,
        expression: FunctionExpression,
        memory: Box<ProgramMemoryView>,
        meta: Seq<Metadata>,
    },
}

impl View for MemoryItem {
    type V = MemoryItemView;

    open spec fn view(&self) -> MemoryItemView {
        item_view(*self)
    }
}

/// What a value holds.
pub open spec fn item_view(item: MemoryItem) -> MemoryItemView
    decreases item,
{
    match item {
        MemoryItem::UserVal { value, meta } => MemoryItemView::UserVal { value: value@, meta: meta@ },
        MemoryItem::SketchGroup(s) => MemoryItemView::SketchGroup(s@),
        MemoryItem::SketchGroups { value } => MemoryItemView::SketchGroups {
            value: sketch_group_views(value@),
        },
        MemoryItem::ExtrudeGroup(e) => MemoryItemView::ExtrudeGroup(e@),
        MemoryItem::ExtrudeTransform(e) => MemoryItemView::ExtrudeTransform(e@),
        MemoryItem::Plane(p) => MemoryItemView::Plane(p@),
        MemoryItem::Face(f) => MemoryItemView::Face(f@),
        MemoryItem::Function { func, expression, memory, meta } => MemoryItemView::Function {
            func,
            expression: *expression,
            memory: Box::new(memory_view(*memory)),
            meta: meta@,
        },
    }
}

/// What a body hands back.
pub open spec fn program_return_view(item: ProgramReturn) -> ProgramReturnView
    decreases item,
{
    match item {
        ProgramReturn::Arguments(args) => ProgramReturnView::Arguments(args@),
        ProgramReturn::Value(v) => ProgramReturnView::Value(item_view(v)),
    }
}

/// What an optional [`ProgramReturn`] holds.
pub open spec fn return_view(return_: Option<ProgramReturn>) -> Option<ProgramReturnView>
    decreases return_,
{
    match return_ {
        Some(r) => Some(program_return_view(r)),
        None => None,
    }
}

/// The values that a list of bindings gives to names. Where a name occurs
/// more than once, the first binding counts.
pub open spec fn bindings(entries: Seq<Binding>) -> Map<Seq<char>, MemoryItemView>
    decreases entries,
{
    if entries.len() == 0 {
        Map::empty()
    } else {
        let rest = bindings(entries.drop_last());
        let last = entries.last();
        if rest.contains_key(last.name@) {
            rest
        } else {
            rest.insert(last.name@, item_view(last.value))
        }
    }
}

/// What a memory holds.
pub open spec fn memory_view(memory: ProgramMemory) -> ProgramMemoryView
    decreases memory,
{
    ProgramMemoryView { root: bindings(memory.root@), return_: return_view(memory.return_) }
}

impl MemoryItemView {
    /// The source ranges that the value came from.
    pub open spec fn source_ranges(&self) -> Seq<SourceRange> {
        match self {
            MemoryItemView::UserVal { meta, .. } => ranges_of(*meta),
            MemoryItemView::SketchGroup(s) => ranges_of(s.meta),
            MemoryItemView::SketchGroups { value } => Seq::empty(),
            MemoryItemView::ExtrudeGroup(e) => ranges_of(e.meta),
            MemoryItemView::ExtrudeTransform(e) => ranges_of(e.meta),
            MemoryItemView::Plane(p) => ranges_of(p.meta),
            MemoryItemView::Face(f) => ranges_of(f.meta),
            MemoryItemView::Function { meta, .. } => ranges_of(*meta),
        }
    }
}

impl Clone for MemoryItem {
    fn clone(&self) -> (r: Self)
        ensures
            r@ == self@,
    {
        match self {
            MemoryItem::UserVal { value, meta } => MemoryItem::UserVal {
                value: value.clone(),
                meta: meta.clone(),
            },
            MemoryItem::SketchGroup(s) => {
                let group: &SketchGroup = s;
                MemoryItem::SketchGroup(Box::new(group.clone()))
            },
            MemoryItem::SketchGroups { value } => MemoryItem::SketchGroups {
                value: clone_sketch_groups(value),
            },
            MemoryItem::ExtrudeGroup(e) => {
                let group: &ExtrudeGroup = e;
                MemoryItem::ExtrudeGroup(Box::new(group.clone()))
            },
            MemoryItem::ExtrudeTransform(e) => MemoryItem::ExtrudeTransform(e.clone()),
            MemoryItem::Plane(p) => {
                let plane: &Plane = p;
                MemoryItem::Plane(Box::new(plane.clone()))
            },
            MemoryItem::Face(f) => {
                let face: &Face = f;
                MemoryItem::Face(Box::new(face.clone()))
            },
            MemoryItem::Function { func, expression, memory, meta } => MemoryItem::Function {
                func: *func,
                expression: expression.clone(),
                memory: memory.clone(),
                meta: meta.clone(),
            },
        }
    }
}

/// The text that `{:?}` gives for a value.
///
/// Calls `std::fmt` through `format!`. Nothing is claimed of the text.
#[verifier::external_body]
pub(crate) fn debug_text<T: core::fmt::Debug>(value: &T) -> (r: String) {
    format!("{:?}", value)
}

/// A `Semantic` error whose message starts with `prefix`.
pub open spec fn semantic_error_about(
    e: KclErrorView,
    prefix: Seq<char>,
    source_ranges: Seq<SourceRange>,
) -> bool {
    &&& e.kind == ErrorKind::Semantic
    &&& prefix.is_prefix_of(e.message)
    &&& e.source_ranges == source_ranges
}

fn semantic_about<T: core::fmt::Debug>(prefix: &str, subject: &T, source_ranges: Vec<SourceRange>) -> (r:
    KclError)
    ensures
        semantic_error_about(r@, prefix@, source_ranges@),
{
    let text = debug_text(subject);
    let mut message = String::from_str(prefix);
    message.append(text.as_str());
    assert((prefix@ + text@).subrange(0, prefix@.len() as int) =~= prefix@);
    KclError::new(
        ErrorKind::Semantic,
        crate::errors::KclErrorDetails { source_ranges, message },
    )
}

impl MemoryItem {
    /// The source ranges that the value came from.
    pub fn source_ranges(&self) -> (r: Vec<SourceRange>)
        ensures
            r@ == self@.source_ranges(),
    {
        match self {
            MemoryItem::UserVal { meta, .. } => source_ranges(meta),
            MemoryItem::SketchGroup(s) => source_ranges(&s.meta),
            MemoryItem::SketchGroups { .. } => Vec::new(),
            MemoryItem::ExtrudeGroup(e) => source_ranges(&e.meta),
            MemoryItem::ExtrudeTransform(e) => source_ranges(&e.meta),
            MemoryItem::Plane(p) => source_ranges(&p.meta),
            MemoryItem::Face(f) => source_ranges(&f.meta),
            MemoryItem::Function { meta, .. } => source_ranges(meta),
        }
    }

    /// The user value that this is. Of any other kind of value this is a
    /// `Semantic` error that starts with `Not a user value: ` and points at
    /// the source ranges of the value.
    pub fn get_json_value(&self) -> (r: Result<JsonValue, KclError>)
        ensures
            match self@ {
                MemoryItemView::UserVal { value, .. } => r is Ok && r->Ok_0@ == value,
                _ => r is Err && semantic_error_about(
                    r->Err_0@,
                    "Not a user value: "@,
                    self@.source_ranges(),
                ),
            },
    {
        if let MemoryItem::UserVal { value, .. } = self {
            Ok(value.clone())
        } else {
            Err(semantic_about("Not a user value: ", self, self.source_ranges()))
        }
    }
}

/// What a body hands back.
#[derive(Debug, PartialEq)]
pub enum ProgramReturn {
    /// The arguments of `show`, as they are written.
    Arguments(Vec<Value>),
    /// The value of a return statement.
    Value(MemoryItem),
}

/// What a [`ProgramReturn`] holds.
pub ghost enum ProgramReturnView {
    Arguments(Seq<Value>),
    Value(MemoryItemView),
}

impl View for ProgramReturn {
    type V = ProgramReturnView;

    open spec fn view(&self) -> ProgramReturnView {
        program_return_view(*self)
    }
}

impl ProgramReturnView {
    /// The source ranges of the arguments, or those of the value.
    pub open spec fn source_ranges(&self) -> Seq<SourceRange> {
        match self {
            ProgramReturnView::Arguments(args) => value_ranges(*args),
            ProgramReturnView::Value(v) => v.source_ranges(),
        }
    }
}

impl Clone for ProgramReturn {
    fn clone(&self) -> (r: Self)
        ensures
            r@ == self@,
    {
        match self {
            ProgramReturn::Arguments(args) => {
                let copy = args.clone();
                assert(copy@ =~= args@);
                ProgramReturn::Arguments(copy)
            },
            ProgramReturn::Value(v) => ProgramReturn::Value(v.clone()),
        }
    }
}

impl ProgramReturn {
    /// The source ranges of the arguments, or those of the value.
    pub fn source_ranges(&self) -> (r: Vec<SourceRange>)
        ensures
            r@ == self@.source_ranges(),
    {
        match self {
            ProgramReturn::Arguments(args) => source_ranges_of_values(args),
            ProgramReturn::Value(v) => v.source_ranges(),
        }
    }

    /// The value that was returned. Of the arguments of `show` this is a
    /// `Semantic` error that starts with `Cannot get value from arguments: `
    /// and points at the arguments.
    pub fn get_value(&self) -> (r: Result<MemoryItem, KclError>)
        ensures
            match self@ {
                ProgramReturnView::Value(v) => r is Ok && r->Ok_0@ == v,
                ProgramReturnView::Arguments(args) => r is Err && semantic_error_about(
                    r->Err_0@,
                    "Cannot get value from arguments: "@,
                    value_ranges(args),
                ),
            },
    {
        match self {
            ProgramReturn::Value(v) => Ok(v.clone()),
            ProgramReturn::Arguments(args) => Err(
                semantic_about("Cannot get value from arguments: ", args, self.source_ranges()),
            ),
        }
    }
}

/// A name and the value it was given.
#[derive(Debug, PartialEq)]
pub struct Binding {
    pub name: String,
    pub value: MemoryItem,
}

/// A name that no binding has is not bound.
pub proof fn lemma_unbound(entries: Seq<Binding>, key: Seq<char>)
    requires
        forall|j: int| 0 <= j < entries.len() ==> (#[trigger] entries[j]).name@ != key,
    ensures
        !bindings(entries).contains_key(key),
    decreases entries.len(),
{
    if entries.len() > 0 {
        let rest = entries.drop_last();
        assert forall|j: int| 0 <= j < rest.len() implies (#[trigger] rest[j]).name@ != key by {
            assert(rest[j] == entries[j]);
        }
        lemma_unbound(rest, key);
    }
}

/// A name is bound to the value of the first binding that has it.
pub proof fn lemma_bound(entries: Seq<Binding>, key: Seq<char>, i: int)
    requires
        0 <= i < entries.len(),
        entries[i].name@ == key,
        forall|j: int| 0 <= j < i ==> (#[trigger] entries[j]).name@ != key,
    ensures
        bindings(entries).contains_key(key),
        bindings(entries)[key] == entries[i].value@,
    decreases entries.len(),
{
    let rest = entries.drop_last();
    if i == entries.len() - 1 {
        assert forall|j: int| 0 <= j < rest.len() implies (#[trigger] rest[j]).name@ != key by {
            assert(rest[j] == entries[j]);
        }
        lemma_unbound(rest, key);
    } else {
        assert(rest[i] == entries[i]);
        assert forall|j: int| 0 <= j < i implies (#[trigger] rest[j]).name@ != key by {
            assert(rest[j] == entries[j]);
        }
        lemma_bound(rest, key, i);
    }
}

/// Lists of bindings that agree, position by position, in the names and in
/// what the values hold, give the same values to the same names.
pub proof fn lemma_bindings_agree(a: Seq<Binding>, b: Seq<Binding>)
    requires
        a.len() == b.len(),
        forall|j: int|
            0 <= j < a.len() ==> (#[trigger] a[j]).name@ == b[j].name@ && a[j].value@
                == b[j].value@,
    ensures
        bindings(a) == bindings(b),
    decreases a.len(),
{
    if a.len() > 0 {
        let ra = a.drop_last();
        let rb = b.drop_last();
        assert forall|j: int| 0 <= j < ra.len() implies (#[trigger] ra[j]).name@ == rb[j].name@
            && ra[j].value@ == rb[j].value@ by {
            assert(ra[j] == a[j]);
            assert(rb[j] == b[j]);
        }
        lemma_bindings_agree(ra, rb);
        assert(a.last() == a[a.len() - 1]);
        assert(b.last() == b[b.len() - 1]);
    }
}

/// The memory of a body: the values of its names, and what it hands back.
#[derive(Debug, PartialEq)]
pub struct ProgramMemory {
    /// The bindings, oldest first.
    pub root: Vec<Binding>,
    /// What the body hands back: the arguments of `show`, or the value of a
    /// return statement.
    pub return_: Option<ProgramReturn>,
}

/// What a [`ProgramMemory`] holds.
pub ghost struct ProgramMemoryView {
    pub root: Map<Seq<char>, MemoryItemView>,
    pub return_: Option<ProgramReturnView>,
}

impl View for ProgramMemory {
    type V = ProgramMemoryView;

    open spec fn view(&self) -> ProgramMemoryView {
        memory_view(*self)
    }
}

/// The error for a name that is given a value twice.
pub open spec fn already_defined(key: Seq<char>, source_range: SourceRange) -> KclErrorView {
    KclErrorView {
        kind: ErrorKind::ValueAlreadyDefined,
        message: "Cannot redefine "@ + key,
        source_ranges: seq![source_range],
    }
}

/// The error for a name that has no value.
pub open spec fn undefined(key: Seq<char>, source_range: SourceRange) -> KclErrorView {
    KclErrorView {
        kind: ErrorKind::UndefinedValue,
        message: "memory item key `"@ + key + "` is not defined"@,
        source_ranges: seq![source_range],
    }
}

impl ProgramMemoryView {
    /// This memory with `key` bound to `value`.
    pub open spec fn with(&self, key: Seq<char>, value: MemoryItemView) -> ProgramMemoryView {
        ProgramMemoryView { root: self.root.insert(key, value), ..*self }
    }

    /// This memory handing back `return_`.
    pub open spec fn returning(&self, return_: ProgramReturnView) -> ProgramMemoryView {
        ProgramMemoryView { return_: Some(return_), ..*self }
    }

    /// What adding a value under `key` gives: the memory with the new
    /// binding, or the error for a name that already has a value.
    pub open spec fn add(
        &self,
        key: Seq<char>,
        value: MemoryItemView,
        source_range: SourceRange,
    ) -> Result<ProgramMemoryView, KclErrorView> {
        if self.root.contains_key(key) {
            Err(already_defined(key, source_range))
        } else {
            Ok(self.with(key, value))
        }
    }

    /// What reading `key` gives: its value, or the error for a name that has
    /// none.
    pub open spec fn get(&self, key: Seq<char>, source_range: SourceRange) -> Result<
        MemoryItemView,
        KclErrorView,
    > {
        if self.root.contains_key(key) {
            Ok(self.root[key])
        } else {
            Err(undefined(key, source_range))
        }
    }
}

/// A name is given a value once: after a value was added under `key`,
/// adding another under the same key fails, whatever the value, and names
/// the source range of the second attempt.
pub proof fn lemma_write_once(
    memory: ProgramMemoryView,
    key: Seq<char>,
    first: MemoryItemView,
    first_range: SourceRange,
    second: MemoryItemView,
    second_range: SourceRange,
)
    requires
        memory.add(key, first, first_range) is Ok,
    ensures
        memory.add(key, first, first_range)->Ok_0.root[key] == first,
        memory.add(key, first, first_range)->Ok_0.add(key, second, second_range) == Err::<
            ProgramMemoryView,
            KclErrorView,
        >(already_defined(key, second_range)),
{
}

/// Adding a value under one name leaves the value of every other name as it
/// was, and what the memory hands back too.
pub proof fn lemma_add_keeps_the_rest(
    memory: ProgramMemoryView,
    key: Seq<char>,
    value: MemoryItemView,
    source_range: SourceRange,
    other: Seq<char>,
)
    requires
        memory.add(key, value, source_range) is Ok,
        other != key,
    ensures
        memory.add(key, value, source_range)->Ok_0.get(other, source_range) == memory.get(
            other,
            source_range,
        ),
        memory.add(key, value, source_range)->Ok_0.return_ == memory.return_,
{
}

/// Whether no name occurs twice in a list of bindings.
pub open spec fn distinct_names(entries: Seq<Binding>) -> bool {
    forall|i: int, j: int|
        0 <= i < j < entries.len() ==> (#[trigger] entries[i]).name@ != (#[trigger] entries[j]).name@
}

impl ProgramMemory {
    /// Whether every name is bound once: no two bindings have the same
    /// name. A memory that starts out empty and grows by [`ProgramMemory::add`]
    /// is of this kind, and so is every copy of it.
    pub open spec fn well_formed(&self) -> bool {
        distinct_names(self.root@)
    }

    /// A memory without bindings that hands nothing back.
    pub fn new() -> (r: Self)
        ensures
            r@.root == Map::<Seq<char>, MemoryItemView>::empty(),
            r@.return_.is_none(),
            r.well_formed(),
    {
        Self { root: Vec::new(), return_: None }
    }

    /// The position of the first binding of `key`, if it has one.
    fn position(&self, key: &str) -> (r: Option<usize>)
        ensures
            match r {
                Some(i) => i < self.root@.len() && self@.root.contains_key(key@) && self@.root[key@]
                    == self.root@[i as int].value@,
                None => !self@.root.contains_key(key@) && forall|j: int|
                    0 <= j < self.root@.len() ==> (#[trigger] self.root@[j]).name@ != key@,
            },
    {
        let wanted = String::from_str(key);
        let mut i: usize = 0;
        while i < self.root.len()
            invariant
                i <= self.root.len(),
                wanted@ == key@,
                forall|j: int| 0 <= j < i ==> (#[trigger] self.root@[j]).name@ != key@,
            decreases self.root.len() - i,
        {
            if self.root[i].name == wanted {
                proof {
                    lemma_bound(self.root@, key@, i as int);
                }
                return Some(i);
            }
            i = i + 1;
        }
        proof {
            lemma_unbound(self.root@, key@);
        }
        None
    }

    /// The value of `key`, if it has one.
    pub fn lookup(&self, key: &str) -> (r: Option<&MemoryItem>)
        ensures
            match r {
                Some(value) => self@.root.contains_key(key@) && value@ == self@.root[key@],
                None => !self@.root.contains_key(key@),
            },
    {
        match self.position(key) {
            Some(i) => Some(&self.root[i].value),
            None => None,
        }
    }

    /// Add to the program memory.
    ///
    /// A name is given a value once: where `key` has a value already, the
    /// memory stays as it is and the result is a `ValueAlreadyDefined` error
    /// at `source_range`.
    pub fn add(&mut self, key: &str, value: MemoryItem, source_range: SourceRange) -> (r: Result<
        (),
        KclError,
    >)
        ensures
            match old(self)@.add(key@, value@, source_range) {
                Ok(memory) => r is Ok && final(self)@ == memory,
                Err(e) => r is Err && r->Err_0@ == e && final(self)@ == old(self)@,
            },
            old(self).well_formed() ==> final(self).well_formed(),
    {
        if self.position(key).is_some() {
            let mut message = String::from_str("Cannot redefine ");
            message.append(key);
            return Err(KclError::at(ErrorKind::ValueAlreadyDefined, message, source_range));
        }
        let ghost before = self.root@;
        let binding = Binding { name: String::from_str(key), value };
        self.root.push(binding);
        assert(self.root@.drop_last() =~= before);
        assert(self@.root =~= old(self)@.root.insert(key@, value@));
        Ok(())
    }

    /// Get a value from the program memory.
    ///
    /// Where `key` has no value, the result is an `UndefinedValue` error at
    /// `source_range`.
    pub fn get(&self, key: &str, source_range: SourceRange) -> (r: Result<&MemoryItem, KclError>)
        ensures
            match self@.get(key@, source_range) {
                Ok(value) => r is Ok && r->Ok_0@ == value,
                Err(e) => r is Err && r->Err_0@ == e,
            },
    {
        match self.position(key) {
            Some(i) => Ok(&self.root[i].value),
            None => Err(
                KclError::at(
                    ErrorKind::UndefinedValue,
                    message_about("memory item key `", key, "` is not defined"),
                    source_range,
                ),
            ),
        }
    }
}

impl Clone for ProgramMemory {
    fn clone(&self) -> (r: Self)
        ensures
            r@ == self@,
            self.well_formed() ==> r.well_formed(),
    {
        let mut root: Vec<Binding> = Vec::new();
        let mut i: usize = 0;
        while i < self.root.len()
            invariant
                i <= self.root.len(),
                root@.len() == i,
                forall|j: int|
                    0 <= j < i ==> (#[trigger] root@[j]).name@ == self.root@[j].name@ && root@[j].value@
                        == self.root@[j].value@,
            decreases self.root.len() - i,
        {
            root.push(Binding { name: self.root[i].name.clone(), value: self.root[i].value.clone() });
            i = i + 1;
        }
        proof {
            lemma_bindings_agree(root@, self.root@);
        }
        let return_ = match &self.return_ {
            Some(r) => Some(r.clone()),
            None => None,
        };
        Self { root, return_ }
    }
}

impl Default for ProgramMemory {
    fn default() -> (r: Self)
        ensures
            r@.root == Map::<Seq<char>, MemoryItemView>::empty(),
            r@.return_.is_none(),
            r.well_formed(),
    {
        Self::new()
    }
}

/// What a list of values holds, in order.
pub open spec fn item_views(items: Seq<MemoryItem>) -> Seq<MemoryItemView> {
    Seq::new(items.len(), |i: int| items[i]@)
}

/// A call of a user-defined function that is ready to run.
#[derive(Debug, PartialEq)]
pub struct Activation {
    /// The function that was called; its body is to be executed as a block.
    pub function: Arc<FunctionExpression>,
    /// The memory in which the body runs: a copy of the memory in which the
    /// function was declared, with the parameters bound to the arguments.
    pub memory: ProgramMemory,
}

/// The memory with each parameter bound to the argument at its position,
/// from left to right; or the error of the first parameter whose name has a
/// value already.
pub open spec fn bind(
    memory: ProgramMemoryView,
    params: Seq<crate::ast::Identifier>,
    args: Seq<MemoryItemView>,
) -> Result<ProgramMemoryView, KclErrorView>
    decreases params.len(),
{
    if params.len() == 0 {
        Ok(memory)
    } else {
        match memory.add(params[0].name@, args[0], params[0].source_range()) {
            Ok(next) => bind(next, params.drop_first(), args.drop_first()),
            Err(e) => Err(e),
        }
    }
}

/// The error for a call with the wrong number of arguments.
pub open spec fn wrong_arity(expected: nat, got: nat, source_range: SourceRange) -> KclErrorView {
    KclErrorView {
        kind: ErrorKind::Type,
        message: "Expected "@ + crate::errors::decimal_text(expected) + " arguments, got "@
            + crate::errors::decimal_text(got),
        source_ranges: seq![source_range],
    }
}

/// What calling the user-defined function `function` with `args` prepares:
/// the memory in which its body runs. The number of arguments must be the
/// number of parameters.
pub open spec fn activate(
    function: FunctionExpression,
    args: Seq<MemoryItemView>,
    memory: ProgramMemoryView,
) -> Result<ProgramMemoryView, KclErrorView> {
    if args.len() != function.params@.len() {
        Err(wrong_arity(function.params@.len(), args.len(), function.source_range()))
    } else {
        bind(memory, function.params@, args)
    }
}

/// Prepares a call of the user-defined function `function_expression`,
/// which was declared in `memory`: checks the number of arguments, copies
/// the memory, and binds each parameter to its argument.
pub fn user_function(
    args: &[MemoryItem],
    memory: &ProgramMemory,
    function_expression: &Arc<FunctionExpression>,
) -> (r: Result<Activation, KclError>)
    ensures
        match activate(**function_expression, item_views(args@), memory@) {
            Ok(fn_memory) => r is Ok && r->Ok_0.function == *function_expression
                && r->Ok_0.memory@ == fn_memory,
            Err(e) => r is Err && r->Err_0@ == e,
        },
        r is Ok && memory.well_formed() ==> r->Ok_0.memory.well_formed(),
{
    let mut fn_memory = memory.clone();
    let params = &function_expression.params;

    if args.len() != params.len() {
        let mut message = String::from_str("Expected ");
        message.append(crate::errors::decimal(params.len()).as_str());
        message.append(" arguments, got ");
        message.append(crate::errors::decimal(args.len()).as_str());
        return Err(KclError::at(ErrorKind::Type, message, function_expression.source_range()));
    }
    // Add the arguments to the memory.

    let ghost views = item_views(args@);
    assert(params@.skip(0) =~= params@);
    assert(views.skip(0) =~= views);
    let mut index: usize = 0;
    while index < params.len()
        invariant
            index <= params.len(),
            args@.len() == params@.len(),
            *params == function_expression.params,
            views == item_views(args@),
            memory.well_formed() ==> fn_memory.well_formed(),
            bind(memory@, params@, views) == bind(
                fn_memory@,
                params@.skip(index as int),
                views.skip(index as int),
            ),
        decreases params.len() - index,
    {
        let param = &params[index];
        let ghost before = fn_memory@;
        proof {
            let rest_params = params@.skip(index as int);
            let rest_views = views.skip(index as int);
            assert(rest_params[0] == params@[index as int]);
            assert(rest_views[0] == args@[index as int]@);
            assert(rest_params.drop_first() =~= params@.skip(index as int + 1));
            assert(rest_views.drop_first() =~= views.skip(index as int + 1));
            assert(bind(before, rest_params, rest_views) == match before.add(
                rest_params[0].name@,
                rest_views[0],
                rest_params[0].source_range(),
            ) {
                Ok(next) => bind(next, rest_params.drop_first(), rest_views.drop_first()),
                Err(e) => Err(e),
            });
        }
        match fn_memory.add(param.name.as_str(), args[index].clone(), param.source_range()) {
            Ok(()) => {},
            Err(e) => {
                return Err(e);
            },
        }
        index = index + 1;
    }
    Ok(Activation { function: function_expression.clone(), memory: fn_memory })
}

impl MemoryItem {
    /// Prepares a call of this value as a function.
    ///
    /// A user-defined function binds its parameters in a copy of the memory
    /// in which it was declared, as [`activate`] says: what was bound after
    /// the declaration is not seen by the body. A value that is no function,
    /// or a function without a native callable, gives a `Semantic` error
    /// that points at no source range.
    pub fn call_fn(&self, args: &[MemoryItem]) -> (r: Result<Activation, KclError>)
        ensures
            match self@ {
                MemoryItemView::Function { func: Some(_), expression, memory, .. } => match activate(
                    expression,
                    item_views(args@),
                    *memory,
                ) {
                    Ok(fn_memory) => r is Ok && *r->Ok_0.function == expression && r->Ok_0.memory@
                        == fn_memory,
                    Err(e) => r is Err && r->Err_0@ == e,
                },
                MemoryItemView::Function { func: None, .. } => r is Err && semantic_error_about(
                    r->Err_0@,
                    "Not a function: "@,
                    Seq::empty(),
                ),
                _ => r is Err && semantic_error_about(r->Err_0@, "not a function: "@, Seq::empty()),
            },
    {
        if let MemoryItem::Function { func, expression, memory, meta: _ } = self {
            if let Some(_) = func {
                user_function(args, memory, expression)
            } else {
                Err(semantic_about("Not a function: ", self, Vec::new()))
            }
        } else {
            Err(semantic_about("not a function: ", self, Vec::new()))
        }
    }
}

} // verus!
