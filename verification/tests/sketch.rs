use kcl_lib::args::Args;
use kcl_lib::engine::{
    is_random_uuid, Angle, CommandBatch, DefaultPlanes, EngineCommand, ModelingCmd, PathSegment, UnitAngle,
};
use kcl_lib::errors::ErrorKind;
use kcl_lib::geometry::{
    ExtrudeArc, ExtrudeGroup, ExtrudePlane, ExtrudeSurface, GeoMeta, Path, PlaneType, Point2d, Point3d, Position,
    Rotation, SketchGroup, SketchGroupSet, SketchSurface,
};
use kcl_lib::json::JsonValue;
use kcl_lib::memory::MemoryItem;
use kcl_lib::number::Number;
use kcl_lib::sketch::{
    angled_line, arc, bezier_curve, close, cut_hole, hole, inner_angled_line_that_intersects, inner_arc,
    inner_close, inner_hole, inner_line, inner_line_to, inner_start_profile_at, inner_start_sketch_at,
    inner_start_sketch_on, inner_tangential_arc, inner_tangential_arc_to, inner_x_line_to, inner_y_line_to,
    intersect_path, line_to, start_profile_at, start_sketch_at, start_sketch_on, start_sketch_on_face,
    start_sketch_on_plane, tan_arc_to, tangential_arc, tangential_arc_to, x_line_to, AngledLineThatIntersectsData,
    ArcData, ArcGeometry, BezierData, LineGeometry, PlaneData, SketchData, SketchOnFaceTag, StartOrEnd,
    TangentialArcData, TangentialArcToGeometry, PLANE_SIZE_BITS,
};
use kcl_lib::source::{Metadata, SourceRange};

fn n(x: f64) -> Number {
    Number::Float(x.to_bits())
}

fn xy(x: f64, y: f64) -> Point2d {
    Point2d { x: n(x), y: n(y) }
}

fn xyz(x: f64, y: f64, z: f64) -> Point3d {
    Point3d { x: n(x), y: n(y), z: n(z) }
}

fn user(value: JsonValue) -> MemoryItem {
    MemoryItem::UserVal { value, meta: vec![] }
}

fn json_point(x: f64, y: f64) -> JsonValue {
    JsonValue::Array(vec![JsonValue::Number(n(x)), JsonValue::Number(n(y))])
}

fn json_object(fields: Vec<(&str, JsonValue)>) -> JsonValue {
    JsonValue::Object(fields.into_iter().map(|(k, v)| (k.to_string(), v)).collect())
}

fn text(s: &str) -> JsonValue {
    JsonValue::String(s.to_string())
}

fn planes() -> DefaultPlanes {
    DefaultPlanes { xy: 11, xz: 12, yz: 13, neg_xy: 14, neg_xz: 15, neg_yz: 16 }
}

fn range(a: usize, b: usize) -> SourceRange {
    SourceRange([a, b])
}

fn sketch_at(x: f64, y: f64, batch: &mut CommandBatch) -> Box<SketchGroup> {
    inner_start_sketch_at(xy(x, y), planes(), range(0, 10), 100, 101, 102, batch)
}

fn sketch_group_of(item: MemoryItem) -> Box<SketchGroup> {
    match item {
        MemoryItem::SketchGroup(sketch_group) => sketch_group,
        other => panic!("not a sketch group: {:?}", other),
    }
}

fn assert_contiguous(sketch_group: &SketchGroup) {
    assert_eq!(sketch_group.start.from, sketch_group.start.to);
    let mut pen = sketch_group.start.to;
    for path in &sketch_group.value {
        assert_eq!(path.get_base().from, pen);
        pen = path.get_base().to;
    }
    assert_eq!(sketch_group.coords(), pen);
}

fn extrusion() -> Box<ExtrudeGroup> {
    let side = |name: &str, face_id: u128, id: u128| ExtrudePlane {
        position: Position::origin(),
        rotation: Rotation::identity(),
        face_id,
        name: name.to_string(),
        geo_meta: GeoMeta { id, metadata: Metadata { source_range: range(1, 2) } },
    };
    Box::new(ExtrudeGroup {
        id: 500,
        value: vec![
            ExtrudeSurface::ExtrudePlane(side("left", 61, 71)),
            ExtrudeSurface::ExtrudeArc(ExtrudeArc {
                position: Position::origin(),
                rotation: Rotation::identity(),
                face_id: 62,
                name: "round".to_string(),
                geo_meta: GeoMeta { id: 72, metadata: Metadata { source_range: range(1, 2) } },
            }),
            ExtrudeSurface::ExtrudePlane(side("left", 63, 73)),
        ],
        height: n(10.0),
        position: Position::origin(),
        rotation: Rotation::identity(),
        x_axis: xyz(1.0, 0.0, 0.0),
        y_axis: xyz(0.0, 1.0, 0.0),
        z_axis: xyz(0.0, 0.0, 1.0),
        start_cap_id: Some(81),
        end_cap_id: None,
        meta: vec![],
    })
}

#[test]
fn the_constants_are_the_bits_of_their_numbers() {
    assert_eq!(Number::zero(), n(0.0));
    assert_eq!(Number::one(), n(1.0));
    assert_eq!(Number::minus_one(), n(-1.0));
    assert_eq!(f64::from_bits(Number::ZERO_BITS), 0.0);
    assert_eq!(f64::from_bits(Number::ONE_BITS), 1.0);
    assert_eq!(f64::from_bits(Number::MINUS_ONE_BITS), -1.0);
    assert_eq!(f64::from_bits(PLANE_SIZE_BITS), 60.0);
    assert_eq!(Number::from_bits(2.5f64.to_bits()), n(2.5));
}

#[test]
fn start_sketch_at_enters_the_xy_plane_and_starts_a_path() {
    let mut batch = CommandBatch::new();
    let sketch_group = sketch_at(-1.2, 4.83, &mut batch);
    assert_eq!(
        batch.commands,
        vec![
            EngineCommand {
                id: 100,
                cmd: ModelingCmd::EnableSketchMode {
                    animated: false,
                    ortho: false,
                    entity_id: 11,
                    adjust_camera: false,
                    planar_normal: Some(xyz(0.0, 0.0, 1.0)),
                },
            },
            EngineCommand { id: 102, cmd: ModelingCmd::StartPath },
            EngineCommand { id: 101, cmd: ModelingCmd::MovePathPen { path: 102, to: xyz(-1.2, 4.83, 0.0) } },
        ]
    );
    assert_eq!(sketch_group.id, 102);
    assert_eq!(sketch_group.entity_id, Some(11));
    assert!(sketch_group.value.is_empty());
    assert_eq!(sketch_group.start.from, xy(-1.2, 4.83));
    assert_eq!(sketch_group.start.to, xy(-1.2, 4.83));
    assert_eq!(sketch_group.start.name, "");
    assert_eq!(sketch_group.start.geo_meta.id, 101);
    assert_eq!(sketch_group.start.geo_meta.metadata.source_range, range(0, 10));
    assert_eq!(sketch_group.position, Position([n(0.0), n(0.0), n(0.0)]));
    assert_eq!(sketch_group.rotation, Rotation([n(0.0), n(0.0), n(0.0), n(1.0)]));
    assert_eq!(sketch_group.x_axis, xyz(1.0, 0.0, 0.0));
    assert_eq!(sketch_group.y_axis, xyz(0.0, 1.0, 0.0));
    assert_eq!(sketch_group.z_axis, xyz(0.0, 0.0, 1.0));
    assert_eq!(sketch_group.meta, vec![Metadata { source_range: range(0, 10) }]);
    match &sketch_group.on {
        SketchSurface::Plane(plane) => {
            assert_eq!(plane.id, 11);
            assert_eq!(plane.value, PlaneType::XY);
        }
        other => panic!("not a plane: {:?}", other),
    }
    assert_contiguous(&sketch_group);
}

#[test]
fn line_to_draws_an_absolute_line_from_the_pen() {
    let mut batch = CommandBatch::new();
    let sketch_group = sketch_at(0.0, 0.0, &mut batch);
    let before = batch.len();
    let sketch_group =
        inner_line_to(xy(2.0, 2.0), sketch_group, Some("yo".to_string()), range(20, 30), 7, &mut batch);
    assert_eq!(batch.len(), before + 1);
    assert_eq!(
        batch.commands[before],
        EngineCommand {
            id: 7,
            cmd: ModelingCmd::ExtendPath {
                path: 102,
                segment: PathSegment::Line { end: xyz(2.0, 2.0, 0.0), relative: false },
            },
        }
    );
    assert_eq!(sketch_group.value.len(), 1);
    match &sketch_group.value[0] {
        Path::ToPoint { base } => {
            assert_eq!(base.from, xy(0.0, 0.0));
            assert_eq!(base.to, xy(2.0, 2.0));
            assert_eq!(base.name, "yo");
            assert_eq!(base.geo_meta, GeoMeta { id: 7, metadata: Metadata { source_range: range(20, 30) } });
        }
        other => panic!("not a line: {:?}", other),
    }
}

#[test]
fn a_segment_without_a_tag_has_the_empty_name() {
    let mut batch = CommandBatch::new();
    let sketch_group = sketch_at(0.0, 0.0, &mut batch);
    let sketch_group = inner_line_to(xy(1.0, 0.0), sketch_group, None, range(0, 0), 7, &mut batch);
    assert_eq!(sketch_group.value[0].get_name(), "");
}

#[test]
fn x_line_to_and_y_line_to_keep_the_other_coordinate() {
    let mut batch = CommandBatch::new();
    let sketch_group = sketch_at(1.0, 2.0, &mut batch);
    let sketch_group = inner_x_line_to(n(10.0), sketch_group, None, range(0, 0), 7, &mut batch);
    assert_eq!(sketch_group.coords(), xy(10.0, 2.0));
    let sketch_group = inner_y_line_to(n(-3.0), sketch_group, None, range(0, 0), 8, &mut batch);
    assert_eq!(sketch_group.coords(), xy(10.0, -3.0));
    assert_eq!(
        batch.commands[3].cmd,
        ModelingCmd::ExtendPath {
            path: 102,
            segment: PathSegment::Line { end: xyz(10.0, 2.0, 0.0), relative: false },
        }
    );
    assert_eq!(
        batch.commands[4].cmd,
        ModelingCmd::ExtendPath {
            path: 102,
            segment: PathSegment::Line { end: xyz(10.0, -3.0, 0.0), relative: false },
        }
    );
    assert_contiguous(&sketch_group);
}

#[test]
fn line_sends_the_offset_and_records_the_end() {
    let mut batch = CommandBatch::new();
    let sketch_group = sketch_at(-1.2, 4.83, &mut batch);
    let from = sketch_group.coords();
    assert_eq!(from, xy(-1.2, 4.83));
    let to = xy(-1.2 + 2.8, 4.83 + 0.0);
    let sketch_group = inner_line(xy(2.8, 0.0), to, sketch_group, None, range(0, 0), 7, &mut batch);
    assert_eq!(
        batch.commands[3],
        EngineCommand {
            id: 7,
            cmd: ModelingCmd::ExtendPath {
                path: 102,
                segment: PathSegment::Line { end: xyz(2.8, 0.0, 0.0), relative: true },
            },
        }
    );
    assert_eq!(sketch_group.value[0].get_base().from, from);
    assert_eq!(sketch_group.value[0].get_base().to, to);
}

#[test]
fn a_sketch_stays_contiguous_through_every_operation() {
    let mut batch = CommandBatch::new();
    let s = sketch_at(0.0, 0.0, &mut batch);
    let s = inner_line_to(xy(2.0, 2.0), s, Some("yo".to_string()), range(0, 0), 1, &mut batch);
    assert_contiguous(&s);
    let s = inner_line(xy(1.0, -1.0), xy(3.0, 1.0), s, None, range(0, 0), 2, &mut batch);
    assert_contiguous(&s);
    let data = AngledLineThatIntersectsData { angle: n(180.0), intersect_tag: "yo".to_string(), offset: Some(n(-1.0)) };
    let s = inner_angled_line_that_intersects(
        data,
        xy(1.0 + 2.0f64.sqrt(), 1.0),
        s,
        Some("yo2".to_string()),
        range(0, 0),
        3,
        &mut batch,
    )
    .unwrap();
    assert_contiguous(&s);
    let geometry = ArcGeometry {
        center: xy(0.0, 0.0),
        end: xy(5.0, 5.0),
        angle_start: Angle::from_degrees(n(0.0)),
        angle_end: Angle::from_degrees(n(90.0)),
    };
    let s = inner_arc(
        ArcData::AnglesAndRadius { angle_start: n(0.0), angle_end: n(90.0), radius: n(1.0) },
        geometry,
        s,
        None,
        range(0, 0),
        4,
        &mut batch,
    );
    assert_contiguous(&s);
    let s = inner_tangential_arc(TangentialArcData::Point(xy(1.0, 1.0)), xy(6.0, 6.0), s, None, range(0, 0), 5, &mut batch);
    assert_contiguous(&s);
    let s = inner_tangential_arc_to(
        xy(7.0, 6.0),
        TangentialArcToGeometry { delta: xy(1.0, 0.0), center: xy(6.5, 6.0), ccw: -1 },
        s,
        None,
        range(0, 0),
        6,
        &mut batch,
    );
    assert_contiguous(&s);
    let s = inner_close(s, None, range(0, 0), 8, 9, &mut batch);
    assert_contiguous(&s);
    assert_eq!(s.coords(), xy(0.0, 0.0));
    assert_eq!(s.value.len(), 7);
    assert_eq!(batch.len(), 3 + 6 + 2);
}

#[test]
fn each_command_has_the_id_of_the_segment_it_draws() {
    let mut batch = CommandBatch::new();
    let s = sketch_at(0.0, 0.0, &mut batch);
    let s = inner_line_to(xy(2.0, 2.0), s, None, range(0, 0), 21, &mut batch);
    let s = inner_line(xy(1.0, -1.0), xy(3.0, 1.0), s, None, range(0, 0), 22, &mut batch);
    let s = inner_close(s, None, range(0, 0), 23, 24, &mut batch);
    let ids: Vec<u128> = s.value.iter().map(|path| path.get_id()).collect();
    assert_eq!(ids, vec![21, 22, 23]);
    assert_eq!(batch.commands[3].id, 21);
    assert_eq!(batch.commands[4].id, 22);
    assert_eq!(batch.commands[5].id, 23);
    assert!(s.get_path_by_id(22).is_some());
    assert!(s.get_path_by_id(24).is_none());
}

#[test]
fn close_on_a_plane_leaves_sketch_mode() {
    let mut batch = CommandBatch::new();
    let s = sketch_at(0.0, 0.0, &mut batch);
    let s = inner_line_to(xy(2.0, 2.0), s, None, range(0, 0), 1, &mut batch);
    let before = batch.len();
    let s = inner_close(s, Some("edge".to_string()), range(40, 48), 8, 9, &mut batch);
    assert_eq!(
        batch.commands[before..].to_vec(),
        vec![
            EngineCommand { id: 8, cmd: ModelingCmd::ClosePath { path_id: 102 } },
            EngineCommand { id: 9, cmd: ModelingCmd::SketchModeDisable },
        ]
    );
    let last = s.value.last().unwrap().get_base();
    assert_eq!(last.from, xy(2.0, 2.0));
    assert_eq!(last.to, xy(0.0, 0.0));
    assert_eq!(last.name, "edge");
    assert_eq!(last.geo_meta.id, 8);
    assert_eq!(last.geo_meta.metadata.source_range, range(40, 48));
}

#[test]
fn close_on_a_face_stays_in_sketch_mode() {
    let mut batch = CommandBatch::new();
    let face = start_sketch_on_face(
        extrusion(),
        SketchOnFaceTag::StartOrEnd(StartOrEnd::Start),
        range(0, 5),
        30,
        &mut batch,
    )
    .unwrap();
    let s = inner_start_profile_at(xy(0.0, 0.0), SketchSurface::Face(face), None, range(0, 0), 31, 32, &mut batch);
    let before = batch.len();
    inner_close(s, None, range(0, 0), 8, 9, &mut batch);
    assert_eq!(
        batch.commands[before..].to_vec(),
        vec![EngineCommand { id: 8, cmd: ModelingCmd::ClosePath { path_id: 32 } }]
    );
}

#[test]
fn sketching_on_a_face_finds_the_first_surface_of_the_name() {
    let mut batch = CommandBatch::new();
    let face = start_sketch_on_face(
        extrusion(),
        SketchOnFaceTag::String("left".to_string()),
        range(3, 9),
        30,
        &mut batch,
    )
    .unwrap();
    assert_eq!(face.id, 30);
    assert_eq!(face.face_id, 61);
    assert_eq!(face.value, "left");
    assert_eq!(face.sketch_group_id, 500);
    assert_eq!(face.x_axis, xyz(1.0, 0.0, 0.0));
    assert_eq!(face.meta, vec![Metadata { source_range: range(3, 9) }]);
    assert_eq!(
        batch.commands,
        vec![EngineCommand {
            id: 30,
            cmd: ModelingCmd::EnableSketchMode {
                animated: false,
                ortho: false,
                entity_id: 61,
                adjust_camera: false,
                planar_normal: None,
            },
        }]
    );
}

#[test]
fn sketching_on_the_start_cap_writes_the_tag_as_start() {
    let mut batch = CommandBatch::new();
    let face = start_sketch_on_face(
        extrusion(),
        SketchOnFaceTag::StartOrEnd(StartOrEnd::Start),
        range(3, 9),
        30,
        &mut batch,
    )
    .unwrap();
    assert_eq!(face.face_id, 81);
    assert_eq!(face.value, "start");
}

#[test]
fn sketching_on_a_curved_surface_is_a_type_error() {
    let mut batch = CommandBatch::new();
    let error = start_sketch_on_face(
        extrusion(),
        SketchOnFaceTag::String("round".to_string()),
        range(3, 9),
        30,
        &mut batch,
    )
    .unwrap_err();
    assert_eq!(error.kind(), ErrorKind::Type);
    assert_eq!(error.message(), "Cannot sketch on a non-planar surface: `round`");
    assert_eq!(error.source_ranges(), vec![range(3, 9)]);
    assert_eq!(batch.len(), 0);
}

#[test]
fn sketching_on_an_unknown_face_is_a_type_error() {
    let mut batch = CommandBatch::new();
    let error = start_sketch_on_face(
        extrusion(),
        SketchOnFaceTag::String("nowhere".to_string()),
        range(3, 9),
        30,
        &mut batch,
    )
    .unwrap_err();
    assert_eq!(error.kind(), ErrorKind::Type);
    assert_eq!(error.message(), "Expected a face with the tag `nowhere`");
    assert_eq!(batch.len(), 0);
}

#[test]
fn sketching_on_a_missing_cap_is_a_type_error() {
    let mut batch = CommandBatch::new();
    let error = start_sketch_on_face(
        extrusion(),
        SketchOnFaceTag::StartOrEnd(StartOrEnd::End),
        range(3, 9),
        30,
        &mut batch,
    )
    .unwrap_err();
    assert_eq!(error.kind(), ErrorKind::Type);
    assert_eq!(error.message(), "Expected an end face to sketch on");
    let mut without_start = extrusion();
    without_start.start_cap_id = None;
    let error = start_sketch_on_face(
        without_start,
        SketchOnFaceTag::StartOrEnd(StartOrEnd::Start),
        range(3, 9),
        30,
        &mut batch,
    )
    .unwrap_err();
    assert_eq!(error.message(), "Expected a start face to sketch on");
    assert_eq!(batch.len(), 0);
}

#[test]
fn sketching_on_an_extrusion_needs_a_tag() {
    let mut batch = CommandBatch::new();
    let error =
        inner_start_sketch_on(SketchData::ExtrudeGroup(extrusion()), None, planes(), range(3, 9), 1, 2, &mut batch)
            .unwrap_err();
    assert_eq!(error.kind(), ErrorKind::Type);
    assert_eq!(error.message(), "Expected a tag for the face to sketch on");
    assert_eq!(error.source_ranges(), vec![range(3, 9)]);
    assert_eq!(batch.len(), 0);
}

#[test]
fn each_provided_plane_has_its_id_and_axes() {
    let cases = vec![
        (PlaneData::XY, 11, PlaneType::XY, xyz(1.0, 0.0, 0.0), xyz(0.0, 1.0, 0.0), xyz(0.0, 0.0, 1.0)),
        (PlaneData::NegXY, 14, PlaneType::XY, xyz(1.0, 0.0, 0.0), xyz(0.0, 1.0, 0.0), xyz(0.0, 0.0, -1.0)),
        (PlaneData::XZ, 12, PlaneType::XZ, xyz(1.0, 0.0, 0.0), xyz(0.0, 0.0, 1.0), xyz(0.0, 1.0, 0.0)),
        (PlaneData::NegXZ, 15, PlaneType::XZ, xyz(1.0, 0.0, 0.0), xyz(0.0, 0.0, 1.0), xyz(0.0, -1.0, 0.0)),
        (PlaneData::YZ, 13, PlaneType::YZ, xyz(0.0, 1.0, 0.0), xyz(0.0, 0.0, 1.0), xyz(1.0, 0.0, 0.0)),
        (PlaneData::NegYZ, 16, PlaneType::YZ, xyz(0.0, 1.0, 0.0), xyz(0.0, 0.0, 1.0), xyz(-1.0, 0.0, 0.0)),
    ];
    for (data, id, kind, x_axis, y_axis, z_axis) in cases {
        let mut batch = CommandBatch::new();
        let plane = start_sketch_on_plane(data, planes(), 900, 901, &mut batch);
        assert_eq!(plane.id, id);
        assert_eq!(plane.value, kind);
        assert_eq!(plane.origin, xyz(0.0, 0.0, 0.0));
        assert_eq!(plane.x_axis, x_axis);
        assert_eq!(plane.y_axis, y_axis);
        assert_eq!(plane.z_axis, z_axis);
        assert!(plane.meta.is_empty());
        assert_eq!(
            batch.commands,
            vec![EngineCommand {
                id: 901,
                cmd: ModelingCmd::EnableSketchMode {
                    animated: false,
                    ortho: false,
                    entity_id: id,
                    adjust_camera: false,
                    planar_normal: Some(z_axis),
                },
            }]
        );
    }
}

#[test]
fn a_custom_plane_is_made_before_it_is_sketched_on() {
    let data = PlaneData::Plane {
        origin: Box::new(xyz(1.0, 2.0, 3.0)),
        x_axis: Box::new(xyz(1.0, 0.0, 0.0)),
        y_axis: Box::new(xyz(0.0, 0.0, 1.0)),
        z_axis: Box::new(xyz(0.0, -1.0, 0.0)),
    };
    let mut batch = CommandBatch::new();
    let plane = start_sketch_on_plane(data, planes(), 900, 901, &mut batch);
    assert_eq!(plane.id, 900);
    assert_eq!(plane.value, PlaneType::Custom);
    assert_eq!(plane.origin, xyz(1.0, 2.0, 3.0));
    assert_eq!(plane.z_axis, xyz(0.0, -1.0, 0.0));
    assert_eq!(
        batch.commands,
        vec![
            EngineCommand {
                id: 900,
                cmd: ModelingCmd::MakePlane {
                    clobber: false,
                    origin: xyz(1.0, 2.0, 3.0),
                    size: n(60.0),
                    x_axis: xyz(1.0, 0.0, 0.0),
                    y_axis: xyz(0.0, 0.0, 1.0),
                    hide: Some(true),
                },
            },
            EngineCommand {
                id: 901,
                cmd: ModelingCmd::EnableSketchMode {
                    animated: false,
                    ortho: false,
                    entity_id: 900,
                    adjust_camera: false,
                    planar_normal: Some(xyz(0.0, -1.0, 0.0)),
                },
            },
        ]
    );
}

#[test]
fn a_plane_from_data_has_a_random_id() {
    let a = kcl_lib::geometry::Plane::from(PlaneData::XZ);
    let b = kcl_lib::geometry::Plane::from(PlaneData::XZ);
    assert_eq!(a.value, PlaneType::XZ);
    assert_eq!(a.y_axis, xyz(0.0, 0.0, 1.0));
    assert!(is_random_uuid(a.id));
    assert!(is_random_uuid(b.id));
    assert_ne!(a.id, b.id);
    assert_eq!(uuid::Uuid::from_u128(a.id).get_version_num(), 4);
}

#[test]
fn an_arc_by_angles_takes_center_and_end_from_the_caller() {
    let mut batch = CommandBatch::new();
    let s = sketch_at(0.0, 0.0, &mut batch);
    let geometry = ArcGeometry {
        center: xy(-10.0, 0.0),
        end: xy(-10.0, 10.0),
        angle_start: Angle::from_radians(n(9.0)),
        angle_end: Angle::from_radians(n(9.0)),
    };
    let s = inner_arc(
        ArcData::AnglesAndRadius { angle_start: n(0.0), angle_end: n(90.0), radius: n(10.0) },
        geometry,
        s,
        Some("edge1".to_string()),
        range(0, 0),
        4,
        &mut batch,
    );
    assert_eq!(
        batch.commands[3],
        EngineCommand {
            id: 4,
            cmd: ModelingCmd::ExtendPath {
                path: 102,
                segment: PathSegment::Arc {
                    start: Angle { unit: UnitAngle::Degrees, value: n(0.0) },
                    end: Angle { unit: UnitAngle::Degrees, value: n(90.0) },
                    center: xy(-10.0, 0.0),
                    radius: n(10.0),
                    relative: false,
                },
            },
        }
    );
    assert_eq!(s.coords(), xy(-10.0, 10.0));
    assert!(matches!(s.value[0], Path::ToPoint { .. }));
}

#[test]
fn an_arc_by_center_takes_the_angles_from_the_caller() {
    let mut batch = CommandBatch::new();
    let s = sketch_at(0.0, 0.0, &mut batch);
    let geometry = ArcGeometry {
        center: xy(99.0, 99.0),
        end: xy(99.0, 99.0),
        angle_start: Angle::from_radians(n(0.5)),
        angle_end: Angle::from_radians(n(1.5)),
    };
    let s = inner_arc(
        ArcData::CenterToRadius { center: xy(1.0, 0.0), to: xy(2.0, 0.0), radius: n(1.0) },
        geometry,
        s,
        None,
        range(0, 0),
        4,
        &mut batch,
    );
    assert_eq!(
        batch.commands[3].cmd,
        ModelingCmd::ExtendPath {
            path: 102,
            segment: PathSegment::Arc {
                start: Angle { unit: UnitAngle::Radians, value: n(0.5) },
                end: Angle { unit: UnitAngle::Radians, value: n(1.5) },
                center: xy(1.0, 0.0),
                radius: n(1.0),
                relative: false,
            },
        }
    );
    assert_eq!(s.coords(), xy(2.0, 0.0));
}

#[test]
fn a_tangential_arc_by_radius_and_offset() {
    let mut batch = CommandBatch::new();
    let s = sketch_at(0.0, 0.0, &mut batch);
    let s = inner_tangential_arc(
        TangentialArcData::RadiusAndOffset { radius: n(10.0), offset: n(90.0) },
        xy(10.0, 10.0),
        s,
        None,
        range(0, 0),
        5,
        &mut batch,
    );
    assert_eq!(
        batch.commands[3],
        EngineCommand {
            id: 5,
            cmd: ModelingCmd::ExtendPath {
                path: 102,
                segment: PathSegment::TangentialArc {
                    radius: n(10.0),
                    offset: Angle { unit: UnitAngle::Degrees, value: n(90.0) },
                },
            },
        }
    );
    assert!(matches!(s.value[0], Path::TangentialArc { .. }));
    assert_eq!(s.coords(), xy(10.0, 10.0));
}

#[test]
fn a_tangential_arc_to_a_point_records_center_and_direction() {
    let mut batch = CommandBatch::new();
    let s = sketch_at(0.0, 0.0, &mut batch);
    assert_eq!(tan_arc_to(&s, &xy(1.0, 2.0)), ModelingCmd::ExtendPath {
        path: 102,
        segment: PathSegment::TangentialArcTo { angle_snap_increment: None, to: xyz(1.0, 2.0, 0.0) },
    });
    let s = inner_tangential_arc_to(
        xy(10.0, 0.0),
        TangentialArcToGeometry { delta: xy(10.0, 0.0), center: xy(5.0, 0.0), ccw: 1 },
        s,
        None,
        range(0, 0),
        6,
        &mut batch,
    );
    match &s.value[0] {
        Path::TangentialArcTo { base, center, ccw } => {
            assert_eq!(base.to, xy(10.0, 0.0));
            assert_eq!(*center, xy(5.0, 0.0));
            assert!(*ccw);
        }
        other => panic!("not an arc: {:?}", other),
    }
    let info = s.get_tangential_info_from_paths();
    assert!(info.is_center);
    assert!(info.ccw);
    assert_eq!(info.center_or_tangent_point, xy(5.0, 0.0));
    let s = inner_tangential_arc_to(
        xy(10.0, 5.0),
        TangentialArcToGeometry { delta: xy(0.0, 5.0), center: xy(10.0, 2.5), ccw: 0 },
        s,
        None,
        range(0, 0),
        7,
        &mut batch,
    );
    assert!(matches!(s.value[1], Path::TangentialArcTo { ccw: false, .. }));
}

#[test]
fn the_tangent_reference_of_a_straight_segment_is_its_end() {
    let mut batch = CommandBatch::new();
    let s = sketch_at(1.0, 1.0, &mut batch);
    let info = s.get_tangential_info_from_paths();
    assert!(!info.is_center);
    assert!(!info.ccw);
    assert_eq!(info.center_or_tangent_point, xy(1.0, 1.0));
    let s = inner_line_to(xy(4.0, 5.0), s, None, range(0, 0), 1, &mut batch);
    let info = s.get_tangential_info_from_paths();
    assert!(!info.is_center);
    assert_eq!(info.center_or_tangent_point, xy(4.0, 5.0));
}

#[test]
fn a_bezier_curve_is_sent_relative() {
    let mut batch = CommandBatch::new();
    let s = sketch_at(1.0, 1.0, &mut batch);
    let data = BezierData { to: xy(10.0, 10.0), control1: xy(5.0, 0.0), control2: xy(5.0, 10.0) };
    let s = kcl_lib::sketch::inner_bezier_curve(data, xy(11.0, 11.0), s, None, range(0, 0), 9, &mut batch);
    assert_eq!(
        batch.commands[3],
        EngineCommand {
            id: 9,
            cmd: ModelingCmd::ExtendPath {
                path: 102,
                segment: PathSegment::Bezier {
                    control_1: xyz(5.0, 0.0, 0.0),
                    control_2: xyz(5.0, 10.0, 0.0),
                    end: xyz(10.0, 10.0, 0.0),
                    relative: true,
                },
            },
        }
    );
    assert_eq!(s.coords(), xy(11.0, 11.0));
}

#[test]
fn an_intersecting_line_needs_the_tagged_segment() {
    let mut batch = CommandBatch::new();
    let s = sketch_at(0.0, 0.0, &mut batch);
    let s = inner_line_to(xy(2.0, 2.0), s, Some("yo".to_string()), range(0, 0), 1, &mut batch);
    let data = AngledLineThatIntersectsData { angle: n(180.0), intersect_tag: "yo".to_string(), offset: None };
    let target = intersect_path(&data, &s, range(5, 6)).unwrap();
    assert_eq!(target.from, xy(0.0, 0.0));
    assert_eq!(target.to, xy(2.0, 2.0));
    let missing =
        AngledLineThatIntersectsData { angle: n(180.0), intersect_tag: "nope".to_string(), offset: None };
    let before = batch.len();
    let error =
        inner_angled_line_that_intersects(missing, xy(1.0, 1.0), s, None, range(5, 6), 2, &mut batch).unwrap_err();
    assert_eq!(error.kind(), ErrorKind::Type);
    assert_eq!(error.message(), "Expected a line that exists in the given SketchGroup, found `nope`");
    assert_eq!(error.source_ranges(), vec![range(5, 6)]);
    assert_eq!(batch.len(), before);
}

#[test]
fn one_hole_is_added_and_then_hidden() {
    let mut batch = CommandBatch::new();
    cut_hole(1, 2, 3, 4, &mut batch);
    assert_eq!(
        batch.commands,
        vec![
            EngineCommand { id: 3, cmd: ModelingCmd::Solid2DAddHole { object_id: 1, hole_id: 2 } },
            EngineCommand { id: 4, cmd: ModelingCmd::ObjectVisible { object_id: 2, hidden: true } },
        ]
    );
}

#[test]
fn holes_are_cut_in_order_and_the_sketch_is_unchanged() {
    let mut scratch = CommandBatch::new();
    let outer = inner_start_sketch_at(xy(0.0, 0.0), planes(), range(0, 0), 1, 2, 1000, &mut scratch);
    let first = inner_start_sketch_at(xy(1.0, 1.0), planes(), range(0, 0), 1, 2, 2000, &mut scratch);
    let second = inner_start_sketch_at(xy(2.0, 2.0), planes(), range(0, 0), 1, 2, 3000, &mut scratch);
    let mut batch = CommandBatch::new();
    let copy = outer.clone();
    let result = inner_hole(SketchGroupSet::SketchGroups(vec![first, second]), outer, &mut batch);
    assert_eq!(result, copy);
    let cmds: Vec<ModelingCmd> = batch.commands.iter().map(|c| c.cmd).collect();
    assert_eq!(
        cmds,
        vec![
            ModelingCmd::Solid2DAddHole { object_id: 1000, hole_id: 2000 },
            ModelingCmd::ObjectVisible { object_id: 2000, hidden: true },
            ModelingCmd::Solid2DAddHole { object_id: 1000, hole_id: 3000 },
            ModelingCmd::ObjectVisible { object_id: 3000, hidden: true },
        ]
    );
    let mut ids: Vec<u128> = batch.commands.iter().map(|c| c.id).collect();
    assert!(ids.iter().all(|id| is_random_uuid(*id)));
    ids.sort();
    ids.dedup();
    assert_eq!(ids.len(), 4);
}

#[test]
fn line_to_reads_its_arguments_and_draws_under_a_fresh_id() {
    let mut batch = CommandBatch::new();
    let s = sketch_at(0.0, 0.0, &mut batch);
    let args = Args::new(
        vec![user(json_point(2.0, 2.0)), MemoryItem::SketchGroup(s), user(text("yo"))],
        range(20, 30),
    );
    let s = sketch_group_of(line_to(args, &mut batch).unwrap());
    assert_eq!(batch.len(), 4);
    let command = batch.commands[3];
    assert!(is_random_uuid(command.id));
    assert_eq!(
        command.cmd,
        ModelingCmd::ExtendPath {
            path: 102,
            segment: PathSegment::Line { end: xyz(2.0, 2.0, 0.0), relative: false },
        }
    );
    let base = s.value[0].get_base();
    assert_eq!(base.geo_meta.id, command.id);
    assert_eq!(base.name, "yo");
    assert_eq!(base.to, xy(2.0, 2.0));
    assert_eq!(base.geo_meta.metadata.source_range, range(20, 30));
    let args = Args::new(vec![user(json_point(3.0, 1.0)), MemoryItem::SketchGroup(s)], range(31, 40));
    let s = sketch_group_of(line_to(args, &mut batch).unwrap());
    assert_ne!(s.value[0].get_id(), s.value[1].get_id());
    assert_eq!(s.value[1].get_name(), "");
    assert_contiguous(&s);
}

#[test]
fn integers_are_read_as_they_are_written() {
    let mut batch = CommandBatch::new();
    let s = sketch_at(0.0, 0.0, &mut batch);
    let point = JsonValue::Array(vec![JsonValue::Number(Number::PosInt(3)), JsonValue::Number(Number::NegInt(-4))]);
    let args = Args::new(vec![user(point), MemoryItem::SketchGroup(s)], range(0, 0));
    let s = sketch_group_of(line_to(args, &mut batch).unwrap());
    assert_eq!(s.coords(), Point2d { x: Number::PosInt(3), y: Number::NegInt(-4) });
}

#[test]
fn a_drawing_operation_rejects_arguments_that_do_not_fit() {
    let mut batch = CommandBatch::new();
    let s = sketch_at(0.0, 0.0, &mut batch);
    let before = batch.len();
    let cases: Vec<(Vec<MemoryItem>, &str)> = vec![
        (vec![], "Expected a user value as the first argument"),
        (vec![MemoryItem::SketchGroup(s.clone())], "Expected a user value as the first argument"),
        (vec![user(text("no point"))], "Failed to read the first argument as the data of the call"),
        (
            vec![user(JsonValue::Array(vec![JsonValue::Number(n(1.0))]))],
            "Failed to read the first argument as the data of the call",
        ),
        (vec![user(json_point(1.0, 1.0))], "Expected a SketchGroup"),
        (vec![user(json_point(1.0, 1.0)), user(text("x"))], "Expected a SketchGroup"),
        (
            vec![user(json_point(1.0, 1.0)), MemoryItem::SketchGroup(s.clone()), user(json_point(0.0, 0.0))],
            "Expected a string as the tag",
        ),
    ];
    for (items, message) in cases {
        let error = line_to(Args::new(items, range(7, 9)), &mut batch).unwrap_err();
        assert_eq!(error.kind(), ErrorKind::Type);
        assert_eq!(error.message(), message);
        assert_eq!(error.source_ranges(), vec![range(7, 9)]);
        assert_eq!(batch.len(), before);
    }
}

#[test]
fn a_null_tag_is_no_tag() {
    let mut batch = CommandBatch::new();
    let s = sketch_at(0.0, 0.0, &mut batch);
    let args =
        Args::new(vec![user(json_point(2.0, 2.0)), MemoryItem::SketchGroup(s), user(JsonValue::Null)], range(0, 0));
    let s = sketch_group_of(line_to(args, &mut batch).unwrap());
    assert_eq!(s.value[0].get_name(), "");
}

#[test]
fn the_operations_with_calculated_points_read_their_arguments() {
    let mut batch = CommandBatch::new();
    let s = sketch_at(1.0, 1.0, &mut batch);
    let args = Args::new(vec![user(json_point(2.0, 3.0)), MemoryItem::SketchGroup(s)], range(0, 0));
    let s = sketch_group_of(kcl_lib::sketch::line(args, xy(3.0, 4.0), &mut batch).unwrap());
    assert_eq!(s.coords(), xy(3.0, 4.0));
    assert_eq!(
        batch.commands[3].cmd,
        ModelingCmd::ExtendPath { path: 102, segment: PathSegment::Line { end: xyz(2.0, 3.0, 0.0), relative: true } }
    );

    let args = Args::new(vec![user(JsonValue::Number(n(10.0))), MemoryItem::SketchGroup(s)], range(0, 0));
    let s = sketch_group_of(x_line_to(args, &mut batch).unwrap());
    assert_eq!(s.coords(), xy(10.0, 4.0));

    let data = json_object(vec![("angle", JsonValue::Number(n(45.0))), ("length", JsonValue::Number(n(10.0)))]);
    let args = Args::new(vec![user(data), MemoryItem::SketchGroup(s), user(text("edge1"))], range(0, 0));
    let geometry = LineGeometry { delta: xy(7.0, 7.0), to: xy(17.0, 11.0) };
    let s = sketch_group_of(angled_line(args, geometry, &mut batch).unwrap());
    assert_eq!(s.coords(), xy(17.0, 11.0));
    assert_eq!(s.value[2].get_name(), "edge1");
    assert_eq!(
        batch.commands[5].cmd,
        ModelingCmd::ExtendPath { path: 102, segment: PathSegment::Line { end: xyz(7.0, 7.0, 0.0), relative: true } }
    );

    let data = json_object(vec![
        ("angle_start", JsonValue::Number(n(0.0))),
        ("angle_end", JsonValue::Number(n(360.0))),
        ("radius", JsonValue::Number(n(10.0))),
    ]);
    let geometry = ArcGeometry {
        center: xy(7.0, 11.0),
        end: xy(17.0, 11.0),
        angle_start: Angle::from_degrees(n(0.0)),
        angle_end: Angle::from_degrees(n(0.0)),
    };
    let args = Args::new(vec![user(data), MemoryItem::SketchGroup(s)], range(0, 0));
    let s = sketch_group_of(arc(args, geometry, &mut batch).unwrap());
    assert_eq!(s.value.len(), 4);

    let args = Args::new(vec![user(json_point(1.0, 1.0)), MemoryItem::SketchGroup(s)], range(0, 0));
    let s = sketch_group_of(tangential_arc(args, xy(18.0, 12.0), &mut batch).unwrap());
    assert!(matches!(s.value[4], Path::TangentialArc { .. }));

    let data = json_object(vec![
        ("to", json_point(10.0, 10.0)),
        ("control1", json_point(5.0, 0.0)),
        ("control2", json_point(5.0, 10.0)),
    ]);
    let args = Args::new(vec![user(data), MemoryItem::SketchGroup(s)], range(0, 0));
    let s = sketch_group_of(bezier_curve(args, xy(28.0, 22.0), &mut batch).unwrap());
    assert_eq!(s.coords(), xy(28.0, 22.0));

    let args = Args::new(vec![MemoryItem::SketchGroup(s), user(text("edge4"))], range(0, 0));
    let s = sketch_group_of(close(args, &mut batch).unwrap());
    assert_eq!(s.coords(), xy(1.0, 1.0));
    assert_eq!(s.value.last().unwrap().get_name(), "edge4");
    assert_contiguous(&s);
    assert!(matches!(batch.commands.last().unwrap().cmd, ModelingCmd::SketchModeDisable));
}

#[test]
fn tangential_arc_to_needs_two_arguments() {
    let mut batch = CommandBatch::new();
    let s = sketch_at(0.0, 0.0, &mut batch);
    let before = batch.len();
    let geometry = TangentialArcToGeometry { delta: xy(10.0, 0.0), center: xy(5.0, 0.0), ccw: 1 };
    let error = tangential_arc_to(Args::new(vec![], range(1, 2)), geometry, &mut batch).unwrap_err();
    assert_eq!(error.kind(), ErrorKind::Type);
    assert_eq!(error.message(), "too few arguments");
    assert_eq!(error.source_ranges(), vec![range(1, 2)]);
    let error =
        tangential_arc_to(Args::new(vec![user(json_point(10.0, 0.0))], range(1, 2)), geometry, &mut batch)
            .unwrap_err();
    assert_eq!(error.kind(), ErrorKind::Type);
    let error = tangential_arc_to(Args::new(vec![user(text("x"))], range(1, 2)), geometry, &mut batch).unwrap_err();
    assert_eq!(error.kind(), ErrorKind::Type);
    assert_eq!(batch.len(), before);
    let args = Args::new(vec![user(json_point(10.0, 0.0)), MemoryItem::SketchGroup(s), user(text("arc"))], range(1, 2));
    let s = sketch_group_of(tangential_arc_to(args, geometry, &mut batch).unwrap());
    assert_eq!(s.value[0].get_name(), "arc");
    assert_eq!(s.coords(), xy(10.0, 0.0));
    assert_eq!(batch.commands[before].id, s.value[0].get_id());
}

#[test]
fn start_sketch_on_and_start_profile_at_read_their_arguments() {
    let mut batch = CommandBatch::new();
    let plane = start_sketch_on(Args::new(vec![user(text("-xz"))], range(0, 4)), planes(), &mut batch).unwrap();
    match &plane {
        MemoryItem::Plane(plane) => {
            assert_eq!(plane.id, 15);
            assert_eq!(plane.z_axis, xyz(0.0, -1.0, 0.0));
        }
        other => panic!("not a plane: {:?}", other),
    }
    assert_eq!(batch.len(), 1);
    let args = Args::new(vec![user(json_point(1.0, 2.0)), plane, user(text("first"))], range(5, 9));
    let s = sketch_group_of(start_profile_at(args, &mut batch).unwrap());
    assert_eq!(s.start.name, "first");
    assert_eq!(s.start.to, xy(1.0, 2.0));
    assert_eq!(s.entity_id, Some(15));
    assert_eq!(batch.len(), 3);
    assert_eq!(batch.commands[1].id, s.id);
    assert_eq!(batch.commands[2].id, s.start.geo_meta.id);

    let face = start_sketch_on(
        Args::new(vec![MemoryItem::ExtrudeGroup(extrusion()), user(text("START"))], range(0, 4)),
        planes(),
        &mut batch,
    )
    .unwrap();
    match face {
        MemoryItem::Face(face) => {
            assert_eq!(face.face_id, 81);
            assert_eq!(face.value, "start");
        }
        other => panic!("not a face: {:?}", other),
    }

    let error =
        start_profile_at(Args::new(vec![user(json_point(1.0, 2.0)), user(text("XY"))], range(5, 9)), &mut batch)
            .unwrap_err();
    assert_eq!(error.kind(), ErrorKind::Type);
    assert_eq!(error.message(), "Expected a plane or a face to sketch on");
}

#[test]
fn start_sketch_at_and_hole_read_their_arguments() {
    let mut batch = CommandBatch::new();
    let outer = sketch_group_of(
        start_sketch_at(Args::new(vec![user(json_point(0.0, 0.0))], range(0, 4)), planes(), &mut batch).unwrap(),
    );
    let inner = sketch_group_of(
        start_sketch_at(Args::new(vec![user(json_point(1.0, 1.0))], range(0, 4)), planes(), &mut batch).unwrap(),
    );
    assert_ne!(outer.id, inner.id);
    let before = batch.len();
    let (outer_id, inner_id) = (outer.id, inner.id);
    let args = Args::new(vec![MemoryItem::SketchGroup(inner), MemoryItem::SketchGroup(outer.clone())], range(0, 0));
    let result = sketch_group_of(hole(args, &mut batch).unwrap());
    assert_eq!(result, outer);
    assert_eq!(
        batch.commands[before].cmd,
        ModelingCmd::Solid2DAddHole { object_id: outer_id, hole_id: inner_id }
    );
    assert_eq!(batch.commands[before + 1].cmd, ModelingCmd::ObjectVisible { object_id: inner_id, hidden: true });
    let error = hole(Args::new(vec![user(text("x"))], range(3, 4)), &mut batch).unwrap_err();
    assert_eq!(error.kind(), ErrorKind::Type);
    assert_eq!(error.message(), "Expected a SketchGroup");
}

fn ids_of(command: &EngineCommand) -> Vec<u128> {
    let mut ids = vec![command.id];
    match command.cmd {
        ModelingCmd::MovePathPen { path, .. } | ModelingCmd::ExtendPath { path, .. } => ids.push(path),
        ModelingCmd::ClosePath { path_id } => ids.push(path_id),
        ModelingCmd::EnableSketchMode { entity_id, .. } => ids.push(entity_id),
        ModelingCmd::Solid2DAddHole { object_id, hole_id } => {
            ids.push(object_id);
            ids.push(hole_id);
        }
        ModelingCmd::ObjectVisible { object_id, .. } => ids.push(object_id),
        ModelingCmd::StartPath | ModelingCmd::SketchModeDisable | ModelingCmd::MakePlane { .. } => {}
    }
    ids
}

fn without_ids(command: &EngineCommand) -> ModelingCmd {
    match command.cmd {
        ModelingCmd::MovePathPen { to, .. } => ModelingCmd::MovePathPen { path: 0, to },
        ModelingCmd::ExtendPath { segment, .. } => ModelingCmd::ExtendPath { path: 0, segment },
        ModelingCmd::ClosePath { .. } => ModelingCmd::ClosePath { path_id: 0 },
        ModelingCmd::EnableSketchMode { animated, ortho, adjust_camera, planar_normal, .. } => {
            ModelingCmd::EnableSketchMode { animated, ortho, entity_id: 0, adjust_camera, planar_normal }
        }
        ModelingCmd::Solid2DAddHole { .. } => ModelingCmd::Solid2DAddHole { object_id: 0, hole_id: 0 },
        ModelingCmd::ObjectVisible { hidden, .. } => ModelingCmd::ObjectVisible { object_id: 0, hidden },
        other => other,
    }
}

fn draw_a_part() -> (CommandBatch, Box<SketchGroup>) {
    let mut batch = CommandBatch::new();
    let s = sketch_group_of(
        start_sketch_at(Args::new(vec![user(json_point(-1.2, 4.83))], range(13, 39)), planes(), &mut batch).unwrap(),
    );
    let args = Args::new(vec![user(json_point(2.8, 0.0)), MemoryItem::SketchGroup(s)], range(45, 61));
    let s = sketch_group_of(kcl_lib::sketch::line(args, xy(-1.2 + 2.8, 4.83), &mut batch).unwrap());
    let (angle, length) = (11.0f64, 3.03f64);
    let delta = [length * angle.to_radians().cos(), length * angle.to_radians().sin()];
    let geometry = LineGeometry { delta: xy(delta[0], delta[1]), to: xy(1.6 + delta[0], 4.83 + delta[1]) };
    let args = Args::new(vec![user(json_point(angle, length)), MemoryItem::SketchGroup(s)], range(67, 95));
    let s = sketch_group_of(angled_line(args, geometry, &mut batch).unwrap());
    let args = Args::new(vec![MemoryItem::SketchGroup(s)], range(101, 109));
    let s = sketch_group_of(close(args, &mut batch).unwrap());
    (batch, s)
}

#[test]
fn a_part_is_drawn_by_its_commands_in_order() {
    let (batch, s) = draw_a_part();
    let (angle, length) = (11.0f64, 3.03f64);
    let delta = xyz(length * angle.to_radians().cos(), length * angle.to_radians().sin(), 0.0);
    let commands: Vec<ModelingCmd> = batch.commands.iter().map(without_ids).collect();
    assert_eq!(
        commands,
        vec![
            ModelingCmd::EnableSketchMode {
                animated: false,
                ortho: false,
                entity_id: 0,
                adjust_camera: false,
                planar_normal: Some(xyz(0.0, 0.0, 1.0)),
            },
            ModelingCmd::StartPath,
            ModelingCmd::MovePathPen { path: 0, to: xyz(-1.2, 4.83, 0.0) },
            ModelingCmd::ExtendPath {
                path: 0,
                segment: PathSegment::Line { end: xyz(2.8, 0.0, 0.0), relative: true },
            },
            ModelingCmd::ExtendPath { path: 0, segment: PathSegment::Line { end: delta, relative: true } },
            ModelingCmd::ClosePath { path_id: 0 },
            ModelingCmd::SketchModeDisable,
        ]
    );
    let path_id = batch.commands[1].id;
    assert_eq!(s.id, path_id);
    for command in &batch.commands[2..6] {
        assert_eq!(ids_of(command)[1], path_id);
    }
    assert_eq!(s.value.len(), 3);
    assert_contiguous(&s);
    assert_eq!(s.coords(), xy(-1.2, 4.83));
}

#[test]
fn the_same_calls_issue_the_same_commands_but_for_the_ids() {
    let (first, _) = draw_a_part();
    let (second, _) = draw_a_part();
    assert_eq!(first.len(), second.len());
    let mut renamed = std::collections::HashMap::new();
    let mut taken = std::collections::HashSet::new();
    for (a, b) in first.commands.iter().zip(second.commands.iter()) {
        assert_eq!(without_ids(a), without_ids(b));
        for (x, y) in ids_of(a).into_iter().zip(ids_of(b)) {
            match renamed.get(&x) {
                Some(known) => assert_eq!(*known, y),
                None => {
                    assert!(taken.insert(y));
                    renamed.insert(x, y);
                }
            }
        }
    }
    let fresh: Vec<u128> = first.commands.iter().map(|c| c.id).collect();
    let again: Vec<u128> = second.commands.iter().map(|c| c.id).collect();
    assert!(fresh.iter().all(|id| !again.contains(id)));
}

#[test]
fn the_ids_that_one_run_draws_are_all_different() {
    let (batch, s) = draw_a_part();
    let mut ids: Vec<u128> = batch.commands.iter().map(|c| c.id).collect();
    ids.push(s.start.geo_meta.id);
    ids.extend(s.value.iter().map(|path| path.get_id()));
    assert!(ids.iter().all(|id| is_random_uuid(*id)));
    let mut distinct = ids.clone();
    distinct.sort();
    distinct.dedup();
    // The starting path and each segment share their id with the command that made them.
    assert_eq!(distinct.len(), batch.len());
}
