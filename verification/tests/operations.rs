use std::sync::Arc;

use kcl_lib::args::{item_data, item_sketch_group, item_tag, Args};
use kcl_lib::ast::{
    source_ranges_of_values, CallExpression, Identifier, Literal, ReturnStatement, Value, VariableDeclarator,
};
use kcl_lib::engine::{CommandBatch, DefaultPlanes, EngineCommand, ModelingCmd, PathSegment};
use kcl_lib::errors::{message_about, ErrorKind};
use kcl_lib::executor::{
    execute_call, execute_declaration, execute_return, literal_value, resolve_call, BodyType, Request,
};
use kcl_lib::geometry::{clone_sketch_groups, Plane, PlaneType, Point2d, Point3d, SketchGroup};
use kcl_lib::json::JsonValue;
use kcl_lib::memory::{user_function, MemoryItem, ProgramMemory, ProgramReturn};
use kcl_lib::number::Number;
use kcl_lib::sketch::{
    angled_line_of_x_length, angled_line_of_y_length, angled_line_that_intersects, angled_line_to_x,
    angled_line_to_y, inner_angled_line, inner_angled_line_of_x_length, inner_angled_line_of_y_length,
    inner_angled_line_to_x, inner_angled_line_to_y, inner_line_to, inner_start_sketch_at, inner_x_line,
    inner_y_line, x_line, y_line, y_line_to, AngledLineToData, LineGeometry, PlaneData,
};
use kcl_lib::source::{Metadata, SourceRange};

fn n(x: f64) -> Number {
    Number::Float(x.to_bits())
}

fn xy(x: f64, y: f64) -> Point2d {
    Point2d { x: n(x), y: n(y) }
}

fn xyz(x: f64, y: f64, z: f64) -> Point3d {
    Point3d { x: n(x), y: n(y), z: n(z) }
}

fn user(value: JsonValue) -> MemoryItem {
    MemoryItem::UserVal { value, meta: vec![] }
}

fn num(x: f64) -> JsonValue {
    JsonValue::Number(n(x))
}

fn text(s: &str) -> JsonValue {
    JsonValue::String(s.to_string())
}

fn object(fields: Vec<(&str, JsonValue)>) -> JsonValue {
    JsonValue::Object(fields.into_iter().map(|(k, v)| (k.to_string(), v)).collect())
}

fn range(a: usize, b: usize) -> SourceRange {
    SourceRange([a, b])
}

fn sketch(batch: &mut CommandBatch) -> Box<SketchGroup> {
    let planes = DefaultPlanes { xy: 11, xz: 12, yz: 13, neg_xy: 14, neg_xz: 15, neg_yz: 16 };
    inner_start_sketch_at(xy(1.0, 2.0), planes, range(0, 10), 100, 101, 102, batch)
}

fn sketch_group_of(item: MemoryItem) -> Box<SketchGroup> {
    match item {
        MemoryItem::SketchGroup(sketch_group) => sketch_group,
        other => panic!("not a sketch group: {:?}", other),
    }
}

fn line(end: Point3d, relative: bool) -> ModelingCmd {
    ModelingCmd::ExtendPath { path: 102, segment: PathSegment::Line { end, relative } }
}

#[test]
fn the_lines_along_an_axis_send_their_length_as_an_offset() {
    let mut batch = CommandBatch::new();
    let s = sketch(&mut batch);
    let s = inner_x_line(n(10.0), xy(11.0, 2.0), s, Some("a".to_string()), range(0, 0), 1, &mut batch);
    let s = inner_y_line(n(-4.0), xy(11.0, -2.0), s, None, range(0, 0), 2, &mut batch);
    assert_eq!(batch.commands[3], EngineCommand { id: 1, cmd: line(xyz(10.0, 0.0, 0.0), true) });
    assert_eq!(batch.commands[4], EngineCommand { id: 2, cmd: line(xyz(0.0, -4.0, 0.0), true) });
    assert_eq!(s.value[0].get_base().to, xy(11.0, 2.0));
    assert_eq!(s.value[0].get_name(), "a");
    assert_eq!(s.value[1].get_base().from, xy(11.0, 2.0));
    assert_eq!(s.coords(), xy(11.0, -2.0));

    let args = Args::new(vec![user(num(3.0)), MemoryItem::SketchGroup(s)], range(5, 6));
    let s = sketch_group_of(x_line(args, xy(14.0, -2.0), &mut batch).unwrap());
    assert_eq!(batch.commands[5].cmd, line(xyz(3.0, 0.0, 0.0), true));
    let args = Args::new(vec![user(num(3.0)), MemoryItem::SketchGroup(s)], range(5, 6));
    let s = sketch_group_of(y_line(args, xy(14.0, 1.0), &mut batch).unwrap());
    assert_eq!(batch.commands[6].cmd, line(xyz(0.0, 3.0, 0.0), true));
    let args = Args::new(vec![user(num(9.0)), MemoryItem::SketchGroup(s), user(text("up"))], range(5, 6));
    let s = sketch_group_of(y_line_to(args, &mut batch).unwrap());
    assert_eq!(batch.commands[7].cmd, line(xyz(14.0, 9.0, 0.0), false));
    assert_eq!(s.coords(), xy(14.0, 9.0));
    assert_eq!(s.value[4].get_name(), "up");
    assert_eq!(s.value[4].get_base().geo_meta.metadata.source_range, range(5, 6));
    let error = x_line(Args::new(vec![user(text("long"))], range(5, 6)), xy(0.0, 0.0), &mut batch).unwrap_err();
    assert_eq!(error.kind(), ErrorKind::Type);
    assert_eq!(batch.len(), 8);
}

#[test]
fn an_angled_line_sends_the_calculated_offset() {
    let geometry = LineGeometry { delta: xy(3.0, 4.0), to: xy(4.0, 6.0) };
    for draw in [inner_angled_line, inner_angled_line_of_x_length, inner_angled_line_of_y_length] {
        let mut batch = CommandBatch::new();
        let s = sketch(&mut batch);
        let s = draw(geometry, s, Some("slope".to_string()), range(3, 4), 5, &mut batch);
        assert_eq!(batch.commands[3], EngineCommand { id: 5, cmd: line(xyz(3.0, 4.0, 0.0), true) });
        assert_eq!(s.value[0].get_base().from, xy(1.0, 2.0));
        assert_eq!(s.value[0].get_base().to, xy(4.0, 6.0));
        assert_eq!(s.value[0].get_name(), "slope");
        assert_eq!(s.value[0].get_id(), 5);
    }
    let data = || user(object(vec![("angle", num(45.0)), ("length", num(5.0))]));
    for draw in [angled_line_of_x_length, angled_line_of_y_length] {
        let mut batch = CommandBatch::new();
        let s = sketch(&mut batch);
        let args = Args::new(vec![data(), MemoryItem::SketchGroup(s)], range(3, 4));
        let s = sketch_group_of(draw(args, geometry, &mut batch).unwrap());
        assert_eq!(batch.commands[3].cmd, line(xyz(3.0, 4.0, 0.0), true));
        assert_eq!(batch.commands[3].id, s.value[0].get_id());
        assert_eq!(s.coords(), xy(4.0, 6.0));
        let error = draw(Args::new(vec![user(num(1.0))], range(3, 4)), geometry, &mut batch).unwrap_err();
        assert_eq!(error.message(), "Failed to read the first argument as the data of the call");
    }
}

#[test]
fn an_angled_line_to_a_coordinate_takes_the_other_from_the_caller() {
    let data = AngledLineToData { angle: n(45.0), to: n(10.0) };
    let mut batch = CommandBatch::new();
    let s = sketch(&mut batch);
    let s = inner_angled_line_to_x(data, n(11.0), s, None, range(0, 0), 1, &mut batch);
    assert_eq!(batch.commands[3].cmd, line(xyz(10.0, 11.0, 0.0), false));
    assert_eq!(s.coords(), xy(10.0, 11.0));
    let s = inner_angled_line_to_y(data, n(-1.0), s, None, range(0, 0), 2, &mut batch);
    assert_eq!(batch.commands[4].cmd, line(xyz(-1.0, 10.0, 0.0), false));
    assert_eq!(s.coords(), xy(-1.0, 10.0));

    let json = || user(object(vec![("angle", num(45.0)), ("to", num(10.0))]));
    let args = Args::new(vec![json(), MemoryItem::SketchGroup(s)], range(0, 0));
    let s = sketch_group_of(angled_line_to_x(args, n(7.0), &mut batch).unwrap());
    assert_eq!(s.coords(), xy(10.0, 7.0));
    let args = Args::new(vec![json(), MemoryItem::SketchGroup(s)], range(0, 0));
    let s = sketch_group_of(angled_line_to_y(args, n(7.0), &mut batch).unwrap());
    assert_eq!(s.coords(), xy(7.0, 10.0));
    assert_eq!(batch.commands[6].cmd, line(xyz(7.0, 10.0, 0.0), false));
}

#[test]
fn an_intersecting_line_reads_its_arguments() {
    let mut batch = CommandBatch::new();
    let s = sketch(&mut batch);
    let s = inner_line_to(xy(2.0, 2.0), s, Some("yo".to_string()), range(0, 0), 1, &mut batch);
    let data = |tag: &str| {
        user(object(vec![("angle", num(180.0)), ("intersectTag", text(tag)), ("offset", num(-1.0))]))
    };
    let args = Args::new(vec![data("nope"), MemoryItem::SketchGroup(s.clone())], range(8, 9));
    let error = angled_line_that_intersects(args, xy(5.0, 5.0), &mut batch).unwrap_err();
    assert_eq!(error.kind(), ErrorKind::Type);
    assert_eq!(error.message(), "Expected a line that exists in the given SketchGroup, found `nope`");
    assert_eq!(error.source_ranges(), vec![range(8, 9)]);
    assert_eq!(batch.len(), 4);
    let args = Args::new(vec![data("yo"), MemoryItem::SketchGroup(s), user(text("yo2"))], range(8, 9));
    let s = sketch_group_of(angled_line_that_intersects(args, xy(5.0, 5.0), &mut batch).unwrap());
    assert_eq!(s.coords(), xy(5.0, 5.0));
    assert_eq!(s.value[1].get_name(), "yo2");
    assert_eq!(batch.commands[4].cmd, line(xyz(5.0, 5.0, 0.0), false));
}

#[test]
fn the_arguments_are_read_position_by_position() {
    let mut batch = CommandBatch::new();
    let s = sketch(&mut batch);
    let point = JsonValue::Array(vec![num(1.0), num(2.0)]);
    let args = Args::new(
        vec![user(point.clone()), MemoryItem::SketchGroup(s.clone()), user(text("tag"))],
        range(1, 2),
    );
    let (data, group, tag) = args.get_data_and_sketch_group_and_tag::<Point2d>().unwrap();
    assert_eq!(data, xy(1.0, 2.0));
    assert_eq!(group, s);
    assert_eq!(tag, Some("tag".to_string()));
    assert_eq!(args.get_sketch_group(1).unwrap(), s);
    assert_eq!(args.get_optional_tag(2).unwrap(), Some("tag".to_string()));
    assert_eq!(args.get_optional_tag(3).unwrap(), None);

    let args = Args::new(vec![MemoryItem::SketchGroup(s.clone())], range(1, 2));
    let (group, tag) = args.get_sketch_group_and_optional_tag().unwrap();
    assert_eq!(group, s);
    assert_eq!(tag, None);
    let error = Args::new(vec![], range(1, 2)).get_sketch_group_and_optional_tag().unwrap_err();
    assert_eq!(error.message(), "Expected a SketchGroup");

    let plane = Plane::with_id(PlaneData::YZ, 77);
    assert_eq!(plane.id, 77);
    assert_eq!(plane.value, PlaneType::YZ);
    assert_eq!(plane.z_axis, xyz(1.0, 0.0, 0.0));
    let args = Args::new(vec![user(point.clone()), MemoryItem::Plane(Box::new(plane.clone()))], range(1, 2));
    let (to, surface, tag) = args.get_data_and_sketch_surface().unwrap();
    assert_eq!(to, xy(1.0, 2.0));
    assert_eq!(surface.id(), 77);
    assert_eq!(tag, None);

    let args = Args::new(
        vec![MemoryItem::SketchGroups { value: vec![s.clone(), s.clone()] }, MemoryItem::SketchGroup(s.clone())],
        range(1, 2),
    );
    let (set, group) = args.get_sketch_groups().unwrap();
    assert_eq!(set, kcl_lib::geometry::SketchGroupSet::SketchGroups(vec![s.clone(), s.clone()]));
    assert_eq!(group, s);
    assert_eq!(clone_sketch_groups(&vec![s.clone()]), vec![s.clone()]);

    assert_eq!(item_data::<Point2d>(&user(point), range(1, 2)).unwrap(), xy(1.0, 2.0));
    assert_eq!(item_data::<Point2d>(&user(num(1.0)), range(1, 2)).unwrap_err().kind(), ErrorKind::Type);
    assert_eq!(item_sketch_group(&MemoryItem::SketchGroup(s.clone()), range(1, 2)).unwrap(), s);
    assert_eq!(item_sketch_group(&user(num(1.0)), range(1, 2)).unwrap_err().message(), "Expected a SketchGroup");
    assert_eq!(item_tag(&user(text("t")), range(1, 2)).unwrap(), Some("t".to_string()));
    assert_eq!(item_tag(&user(JsonValue::Null), range(1, 2)).unwrap(), None);
    assert_eq!(item_tag(&user(num(1.0)), range(1, 2)).unwrap_err().message(), "Expected a string as the tag");
}

fn literal(n: u64, start: usize, end: usize) -> Arc<Literal> {
    Arc::new(Literal { start, end, value: JsonValue::Number(Number::PosInt(n)), raw: n.to_string() })
}

fn identifier(name: &str, start: usize, end: usize) -> Identifier {
    Identifier { start, end, name: name.to_string() }
}

fn value_of(n: u64, start: usize, end: usize) -> MemoryItem {
    MemoryItem::UserVal {
        value: JsonValue::Number(Number::PosInt(n)),
        meta: vec![Metadata { source_range: range(start, end) }],
    }
}

#[test]
fn each_kind_of_statement_is_executed_by_its_rule() {
    assert_eq!(literal_value(&literal(5, 1, 2)), value_of(5, 1, 2));

    let mut memory = ProgramMemory::new();
    let declarator = VariableDeclarator {
        start: 0,
        end: 9,
        id: identifier("a", 0, 1),
        init: Value::Literal(literal(5, 8, 9)),
    };
    assert_eq!(execute_declaration(&declarator, &mut memory).unwrap(), None);
    assert_eq!(memory.get("a", range(0, 0)).unwrap(), &value_of(5, 8, 9));
    let error = execute_declaration(&declarator, &mut memory).unwrap_err();
    assert_eq!(error.kind(), ErrorKind::ValueAlreadyDefined);
    assert_eq!(error.source_ranges(), vec![range(8, 9)]);

    let arguments = vec![
        Value::Identifier(Arc::new(identifier("a", 20, 21))),
        Value::Literal(literal(7, 23, 24)),
    ];
    assert_eq!(source_ranges_of_values(&arguments), vec![range(20, 21), range(23, 24)]);
    let unknown = vec![Value::Literal(literal(7, 23, 24)), Value::Identifier(Arc::new(identifier("b", 26, 27)))];
    let failing =
        Arc::new(CallExpression { start: 15, end: 25, callee: identifier("a", 15, 16), arguments: unknown });
    let error = execute_call(&failing, &mut memory, BodyType::Block).unwrap_err();
    assert_eq!(error.kind(), ErrorKind::UndefinedValue);
    assert_eq!(error.source_ranges(), vec![range(26, 27)]);

    let show = Arc::new(CallExpression {
        start: 15,
        end: 25,
        callee: identifier("show", 15, 19),
        arguments: arguments.clone(),
    });
    assert_eq!(execute_call(&show, &mut memory, BodyType::Root).unwrap(), None);
    assert_eq!(memory.return_, Some(ProgramReturn::Arguments(arguments.clone())));
    let other = Arc::new(CallExpression { start: 15, end: 25, callee: identifier("a", 15, 16), arguments });
    match execute_call(&other, &mut memory, BodyType::Block).unwrap() {
        Some(Request::Call { function, arguments, source_range }) => {
            assert_eq!(function, value_of(5, 8, 9));
            assert_eq!(arguments, vec![value_of(5, 8, 9), value_of(7, 23, 24)]);
            assert_eq!(source_range, range(15, 25));
        }
        other => panic!("not a call: {:?}", other),
    }
    match resolve_call(&other, &mut memory, BodyType::Block, 1, vec![value_of(9, 0, 0)]).unwrap() {
        Some(Request::Call { arguments, .. }) => {
            assert_eq!(arguments, vec![value_of(9, 0, 0), value_of(7, 23, 24)]);
        }
        other => panic!("not a call: {:?}", other),
    }

    let statement =
        ReturnStatement { start: 30, end: 38, argument: Value::Identifier(Arc::new(identifier("a", 37, 38))) };
    assert_eq!(execute_return(&statement, &mut memory).unwrap(), None);
    assert_eq!(memory.return_, Some(ProgramReturn::Value(value_of(5, 8, 9))));
}

#[test]
fn a_user_function_is_activated_with_its_parameters_bound_in_order() {
    let function = Arc::new(kcl_lib::ast::FunctionExpression {
        start: 0,
        end: 30,
        params: vec![identifier("x", 1, 2), identifier("y", 4, 5), identifier("x", 7, 8)],
        body: kcl_lib::ast::Program { start: 10, end: 30, body: vec![] },
    });
    let memory = ProgramMemory::new();
    let args = [value_of(1, 0, 0), value_of(2, 0, 0), value_of(3, 0, 0)];
    let error = user_function(&args, &memory, &function).unwrap_err();
    assert_eq!(error.kind(), ErrorKind::ValueAlreadyDefined);
    assert_eq!(error.message(), "Cannot redefine x");
    assert_eq!(error.source_ranges(), vec![range(7, 8)]);
    let error = user_function(&args[..2], &memory, &function).unwrap_err();
    assert_eq!(error.kind(), ErrorKind::Type);
    assert_eq!(error.message(), "Expected 3 arguments, got 2");
}

#[test]
fn a_message_is_put_together_from_its_parts() {
    assert_eq!(message_about("No such name ", "f", " defined"), "No such name f defined");
    assert_eq!(message_about("", "", ""), "");
}
