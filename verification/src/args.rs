//! The arguments of a call to a sketch operation, and how they are read.
//!
//! A call hands over a list of values. Each operation reads from it, by
//! position, the data it works with, the sketch it works on, and a tag where
//! it takes one. Data is read from a user value of the fitting shape. A list
//! that does not fit is a `Type` error at the source range of the call.

use vstd::prelude::*;
use crate::errors::{type_error, ErrorKind, KclError, KclErrorView};
use crate::geometry::{
    clone_sketch_groups, ExtrudeGroup, Point2d, Point3d, SketchGroup, SketchGroupSet, SketchGroupView,
    SketchSurface, SketchSurfaceView,
};
use crate::json::{JsonValue, JsonView};
use crate::memory::{item_views, MemoryItem, MemoryItemView};
use crate::number::Number;
use crate::sketch::{
    tag_name, AngledLineData, AngledLineThatIntersectsData, AngledLineToData, ArcData, BezierData,
    PlaneData, SketchData, SketchDataView, SketchOnFaceTag, SketchOnFaceTagView, StartOrEnd,
    TangentialArcData,
};
use crate::source::SourceRange;

verus! {

/// Data that can be read from a user value.
pub trait FromJson: Sized {
    /// Whether `value` has the shape of this kind of data.
    spec fn accepts(value: JsonView) -> bool;

    /// Whether `data` is what `value` holds.
    spec fn reads(value: JsonView, data: Self) -> bool;

    /// Reads `value`. The result is data exactly where `value` has the
    /// shape, and then it is what `value` holds.
    fn from_json(value: &JsonValue) -> (r: Option<Self>)
        ensures
            r is Some <==> Self::accepts(value@),
            r is Some ==> Self::reads(value@, r->Some_0),
    ;
}

/// The point that a sequence of exactly two numbers gives.
pub open spec fn point_of(value: JsonView) -> Option<Point2d> {
    match value.array() {
        Some(items) => if items.len() == 2 {
            match (items[0].number(), items[1].number()) {
                (Some(x), Some(y)) => Some(Point2d { x, y }),
                _ => None,
            }
        } else {
            None
        },
        None => None,
    }
}

/// The point in space that a mapping with the numbers `x`, `y` and `z`
/// gives.
pub open spec fn point3d_of(value: JsonView) -> Option<Point3d> {
    match (value.number_field("x"@), value.number_field("y"@), value.number_field("z"@)) {
        (Some(x), Some(y), Some(z)) => Some(Point3d { x, y, z }),
        _ => None,
    }
}

/// The point under `key`, if there is one.
pub open spec fn point_field(value: JsonView, key: Seq<char>) -> Option<Point2d> {
    match value.field(key) {
        Some(point) => point_of(point),
        None => None,
    }
}

/// The point in space under `key`, if there is one.
pub open spec fn point3d_field(value: JsonView, key: Seq<char>) -> Option<Point3d> {
    match value.field(key) {
        Some(point) => point3d_of(point),
        None => None,
    }
}

impl FromJson for Number {
    open spec fn accepts(value: JsonView) -> bool {
        value.number() is Some
    }

    open spec fn reads(value: JsonView, data: Self) -> bool {
        value.number() == Some(data)
    }

    fn from_json(value: &JsonValue) -> (r: Option<Self>) {
        value.as_number()
    }
}

impl FromJson for Point2d {
    open spec fn accepts(value: JsonView) -> bool {
        point_of(value) is Some
    }

    open spec fn reads(value: JsonView, data: Self) -> bool {
        point_of(value) == Some(data)
    }

    fn from_json(value: &JsonValue) -> (r: Option<Self>) {
        assert(Self::accepts(value@) == (point_of(value@) is Some));
        assert(forall|d: Self| #[trigger] Self::reads(value@, d) == (point_of(value@) == Some(d)));
        match value.as_array() {
            Some(items) => {
                if items.len() == 2 {
                    assert(value@.array()->Some_0[0] == items@[0]@);
                    assert(value@.array()->Some_0[1] == items@[1]@);
                    match (items[0].as_number(), items[1].as_number()) {
                        (Some(x), Some(y)) => Some(Point2d { x, y }),
                        _ => None,
                    }
                } else {
                    None
                }
            },
            None => None,
        }
    }
}

impl FromJson for Point3d {
    open spec fn accepts(value: JsonView) -> bool {
        point3d_of(value) is Some
    }

    open spec fn reads(value: JsonView, data: Self) -> bool {
        point3d_of(value) == Some(data)
    }

    fn from_json(value: &JsonValue) -> (r: Option<Self>) {
        match (value.get_number("x"), value.get_number("y"), value.get_number("z")) {
            (Some(x), Some(y), Some(z)) => Some(Point3d { x, y, z }),
            _ => None,
        }
    }
}

fn get_point(value: &JsonValue, key: &str) -> (r: Option<Point2d>)
    ensures
        r == point_field(value@, key@),
{
    match value.get(key) {
        Some(point) => Point2d::from_json(point),
        None => None,
    }
}

fn get_point3d(value: &JsonValue, key: &str) -> (r: Option<Point3d>)
    ensures
        r == point3d_field(value@, key@),
{
    match value.get(key) {
        Some(point) => Point3d::from_json(point),
        None => None,
    }
}

/// An angle and a length: a mapping with the numbers `angle` and `length`,
/// or else a sequence of the two.
pub open spec fn angled_line_of(value: JsonView) -> Option<AngledLineData> {
    match (value.number_field("angle"@), value.number_field("length"@)) {
        (Some(angle), Some(length)) => Some(AngledLineData::AngleAndLengthNamed { angle, length }),
        _ => match point_of(value) {
            Some(pair) => Some(AngledLineData::AngleAndLengthPair([pair.x, pair.y])),
            None => None,
        },
    }
}

impl FromJson for AngledLineData {
    open spec fn accepts(value: JsonView) -> bool {
        angled_line_of(value) is Some
    }

    open spec fn reads(value: JsonView, data: Self) -> bool {
        angled_line_of(value) == Some(data)
    }

    fn from_json(value: &JsonValue) -> (r: Option<Self>) {
        match (value.get_number("angle"), value.get_number("length")) {
            (Some(angle), Some(length)) => Some(AngledLineData::AngleAndLengthNamed { angle, length }),
            _ => match Point2d::from_json(value) {
                Some(pair) => {
                    let data = AngledLineData::AngleAndLengthPair([pair.x, pair.y]);
                    assert(data->AngleAndLengthPair_0 =~= [pair.x, pair.y]);
                    Some(data)
                },
                None => None,
            },
        }
    }
}

/// An angle and a coordinate: a mapping with the numbers `angle` and `to`.
pub open spec fn angled_line_to_of(value: JsonView) -> Option<AngledLineToData> {
    match (value.number_field("angle"@), value.number_field("to"@)) {
        (Some(angle), Some(to)) => Some(AngledLineToData { angle, to }),
        _ => None,
    }
}

impl FromJson for AngledLineToData {
    open spec fn accepts(value: JsonView) -> bool {
        angled_line_to_of(value) is Some
    }

    open spec fn reads(value: JsonView, data: Self) -> bool {
        angled_line_to_of(value) == Some(data)
    }

    fn from_json(value: &JsonValue) -> (r: Option<Self>) {
        match (value.get_number("angle"), value.get_number("to")) {
            (Some(angle), Some(to)) => Some(AngledLineToData { angle, to }),
            _ => None,
        }
    }
}

/// A number that may be left out: `Some(None)` where `key` is missing or
/// null, `Some(Some(n))` where it is the number `n`, and `None` where it is
/// anything else.
pub open spec fn optional_number_field(value: JsonView, key: Seq<char>) -> Option<Option<Number>> {
    match value.field(key) {
        None => Some(None),
        Some(JsonView::Null) => Some(None),
        Some(JsonView::Number(n)) => Some(Some(n)),
        Some(_) => None,
    }
}

fn get_optional_number(value: &JsonValue, key: &str) -> (r: Option<Option<Number>>)
    ensures
        r == optional_number_field(value@, key@),
{
    match value.get(key) {
        None => Some(None),
        Some(JsonValue::Null) => Some(None),
        Some(JsonValue::Number(n)) => Some(Some(*n)),
        Some(_) => None,
    }
}

impl FromJson for AngledLineThatIntersectsData {
    /// A mapping with the number `angle`, the string `intersectTag`, and
    /// the number `offset`, which may be left out.
    open spec fn accepts(value: JsonView) -> bool {
        &&& value.number_field("angle"@) is Some
        &&& value.field("intersectTag"@) is Some
        &&& value.field("intersectTag"@)->Some_0.string() is Some
        &&& optional_number_field(value, "offset"@) is Some
    }

    open spec fn reads(value: JsonView, data: Self) -> bool {
        &&& value.number_field("angle"@) == Some(data.angle)
        &&& value.field("intersectTag"@) is Some
        &&& value.field("intersectTag"@)->Some_0.string() == Some(data.intersect_tag@)
        &&& optional_number_field(value, "offset"@) == Some(data.offset)
    }

    fn from_json(value: &JsonValue) -> (r: Option<Self>) {
        let angle = match value.get_number("angle") {
            Some(angle) => angle,
            None => {
                return None;
            },
        };
        let intersect_tag = match value.get("intersectTag") {
            Some(tag) => match tag.as_str() {
                Some(tag) => String::from_str(tag),
                None => {
                    return None;
                },
            },
            None => {
                return None;
            },
        };
        let offset = match get_optional_number(value, "offset") {
            Some(offset) => offset,
            None => {
                return None;
            },
        };
        Some(AngledLineThatIntersectsData { angle, intersect_tag, offset })
    }
}

/// An arc: a mapping with the numbers `angle_start`, `angle_end` and
/// `radius`, or else one with the points `center` and `to` and the number
/// `radius`.
pub open spec fn arc_of(value: JsonView) -> Option<ArcData> {
    match (
        value.number_field("angle_start"@),
        value.number_field("angle_end"@),
        value.number_field("radius"@),
    ) {
        (Some(angle_start), Some(angle_end), Some(radius)) => Some(
            ArcData::AnglesAndRadius { angle_start, angle_end, radius },
        ),
        _ => match (
            point_field(value, "center"@),
            point_field(value, "to"@),
            value.number_field("radius"@),
        ) {
            (Some(center), Some(to), Some(radius)) => Some(
                ArcData::CenterToRadius { center, to, radius },
            ),
            _ => None,
        },
    }
}

impl FromJson for ArcData {
    open spec fn accepts(value: JsonView) -> bool {
        arc_of(value) is Some
    }

    open spec fn reads(value: JsonView, data: Self) -> bool {
        arc_of(value) == Some(data)
    }

    fn from_json(value: &JsonValue) -> (r: Option<Self>) {
        match (
            value.get_number("angle_start"),
            value.get_number("angle_end"),
            value.get_number("radius"),
        ) {
            (Some(angle_start), Some(angle_end), Some(radius)) => Some(
                ArcData::AnglesAndRadius { angle_start, angle_end, radius },
            ),
            _ => match (get_point(value, "center"), get_point(value, "to"), value.get_number("radius")) {
                (Some(center), Some(to), Some(radius)) => Some(
                    ArcData::CenterToRadius { center, to, radius },
                ),
                _ => None,
            },
        }
    }
}

/// A tangential arc: a mapping with the numbers `radius` and `offset`, or
/// else a point.
pub open spec fn tangential_arc_of(value: JsonView) -> Option<TangentialArcData> {
    match (value.number_field("radius"@), value.number_field("offset"@)) {
        (Some(radius), Some(offset)) => Some(TangentialArcData::RadiusAndOffset { radius, offset }),
        _ => match point_of(value) {
            Some(point) => Some(TangentialArcData::Point(point)),
            None => None,
        },
    }
}

impl FromJson for TangentialArcData {
    open spec fn accepts(value: JsonView) -> bool {
        tangential_arc_of(value) is Some
    }

    open spec fn reads(value: JsonView, data: Self) -> bool {
        tangential_arc_of(value) == Some(data)
    }

    fn from_json(value: &JsonValue) -> (r: Option<Self>) {
        match (value.get_number("radius"), value.get_number("offset")) {
            (Some(radius), Some(offset)) => Some(TangentialArcData::RadiusAndOffset { radius, offset }),
            _ => match Point2d::from_json(value) {
                Some(point) => Some(TangentialArcData::Point(point)),
                None => None,
            },
        }
    }
}

/// A bezier curve: a mapping with the points `to`, `control1` and
/// `control2`.
pub open spec fn bezier_of(value: JsonView) -> Option<BezierData> {
    match (
        point_field(value, "to"@),
        point_field(value, "control1"@),
        point_field(value, "control2"@),
    ) {
        (Some(to), Some(control1), Some(control2)) => Some(BezierData { to, control1, control2 }),
        _ => None,
    }
}

impl FromJson for BezierData {
    open spec fn accepts(value: JsonView) -> bool {
        bezier_of(value) is Some
    }

    open spec fn reads(value: JsonView, data: Self) -> bool {
        bezier_of(value) == Some(data)
    }

    fn from_json(value: &JsonValue) -> (r: Option<Self>) {
        match (get_point(value, "to"), get_point(value, "control1"), get_point(value, "control2")) {
            (Some(to), Some(control1), Some(control2)) => Some(BezierData { to, control1, control2 }),
            _ => None,
        }
    }
}

impl FromJson for String {
    open spec fn accepts(value: JsonView) -> bool {
        value.string() is Some
    }

    open spec fn reads(value: JsonView, data: Self) -> bool {
        value.string() == Some(data@)
    }

    fn from_json(value: &JsonValue) -> (r: Option<Self>) {
        match value.as_str() {
            Some(s) => Some(String::from_str(s)),
            None => None,
        }
    }
}

/// Whether `name` is the two letters `upper`, each in either case.
pub open spec fn is_axes(
    name: Seq<char>,
    upper: Seq<char>,
    lower: Seq<char>,
    first: Seq<char>,
    second: Seq<char>,
) -> bool {
    name == upper || name == lower || name == first || name == second
}

/// The plane that the engine provides under the name `name`. The names are
/// `XY`, `XZ` and `YZ`, each with `-` before it for the opposite side, and
/// with its letters in either case.
pub open spec fn plane_named(name: Seq<char>) -> Option<PlaneData> {
    if is_axes(name, "XY"@, "xy"@, "Xy"@, "xY"@) {
        Some(PlaneData::XY)
    } else if is_axes(name, "-XY"@, "-xy"@, "-Xy"@, "-xY"@) {
        Some(PlaneData::NegXY)
    } else if is_axes(name, "XZ"@, "xz"@, "Xz"@, "xZ"@) {
        Some(PlaneData::XZ)
    } else if is_axes(name, "-XZ"@, "-xz"@, "-Xz"@, "-xZ"@) {
        Some(PlaneData::NegXZ)
    } else if is_axes(name, "YZ"@, "yz"@, "Yz"@, "yZ"@) {
        Some(PlaneData::YZ)
    } else if is_axes(name, "-YZ"@, "-yz"@, "-Yz"@, "-yZ"@) {
        Some(PlaneData::NegYZ)
    } else {
        None
    }
}

fn is_one_of(name: &String, upper: &str, lower: &str, first: &str, second: &str) -> (r: bool)
    ensures
        r == is_axes(name@, upper@, lower@, first@, second@),
{
    *name == String::from_str(upper) || *name == String::from_str(lower) || *name
        == String::from_str(first) || *name == String::from_str(second)
}

/// The plane given by its origin and axes: a mapping with the points in
/// space `origin`, `x_axis`, `y_axis` and `z_axis`.
pub open spec fn custom_plane_of(value: JsonView) -> Option<PlaneData> {
    match (
        point3d_field(value, "origin"@),
        point3d_field(value, "x_axis"@),
        point3d_field(value, "y_axis"@),
        point3d_field(value, "z_axis"@),
    ) {
        (Some(origin), Some(x_axis), Some(y_axis), Some(z_axis)) => Some(
            PlaneData::Plane {
                origin: Box::new(origin),
                x_axis: Box::new(x_axis),
                y_axis: Box::new(y_axis),
                z_axis: Box::new(z_axis),
            },
        ),
        _ => None,
    }
}

/// A plane: the name of one that the engine provides, or else a mapping
/// that holds, under `plane`, a plane given by its origin and axes.
pub open spec fn plane_of(value: JsonView) -> Option<PlaneData> {
    match value {
        JsonView::String(name) => plane_named(name),
        _ => match value.field("plane"@) {
            Some(plane) => custom_plane_of(plane),
            None => None,
        },
    }
}

impl PlaneData {
    /// The name under which the plane is written, where the engine provides
    /// it: `XY`, `-XY`, `XZ`, `-XZ`, `YZ` or `-YZ`.
    pub open spec fn spec_name(&self) -> Option<Seq<char>> {
        match self {
            PlaneData::XY => Some("XY"@),
            PlaneData::NegXY => Some("-XY"@),
            PlaneData::XZ => Some("XZ"@),
            PlaneData::NegXZ => Some("-XZ"@),
            PlaneData::YZ => Some("YZ"@),
            PlaneData::NegYZ => Some("-YZ"@),
            PlaneData::Plane { .. } => None,
        }
    }

    /// The name under which the plane is written, where the engine provides
    /// it.
    pub fn name(&self) -> (r: Option<&'static str>)
        ensures
            match r {
                Some(name) => self.spec_name() == Some(name@),
                None => self.spec_name().is_none(),
            },
    {
        match self {
            PlaneData::XY => Some("XY"),
            PlaneData::NegXY => Some("-XY"),
            PlaneData::XZ => Some("XZ"),
            PlaneData::NegXZ => Some("-XZ"),
            PlaneData::YZ => Some("YZ"),
            PlaneData::NegYZ => Some("-YZ"),
            PlaneData::Plane { .. } => None,
        }
    }

    /// The plane that the engine provides under the name `name`, as
    /// [`plane_named`] says.
    pub fn from_name(name: &str) -> (r: Option<PlaneData>)
        ensures
            r == plane_named(name@),
    {
        let name = String::from_str(name);
        if is_one_of(&name, "XY", "xy", "Xy", "xY") {
            Some(PlaneData::XY)
        } else if is_one_of(&name, "-XY", "-xy", "-Xy", "-xY") {
            Some(PlaneData::NegXY)
        } else if is_one_of(&name, "XZ", "xz", "Xz", "xZ") {
            Some(PlaneData::XZ)
        } else if is_one_of(&name, "-XZ", "-xz", "-Xz", "-xZ") {
            Some(PlaneData::NegXZ)
        } else if is_one_of(&name, "YZ", "yz", "Yz", "yZ") {
            Some(PlaneData::YZ)
        } else if is_one_of(&name, "-YZ", "-yz", "-Yz", "-yZ") {
            Some(PlaneData::NegYZ)
        } else {
            None
        }
    }
}

/// Every plane that the engine provides is read back from its name.
pub proof fn lemma_plane_name_is_read_back(data: PlaneData)
    requires
        data.spec_name() is Some,
    ensures
        plane_named(data.spec_name()->Some_0) == Some(data),
{
    reveal_strlit("XY");
    reveal_strlit("xy");
    reveal_strlit("Xy");
    reveal_strlit("xY");
    reveal_strlit("-XY");
    reveal_strlit("-xy");
    reveal_strlit("-Xy");
    reveal_strlit("-xY");
    reveal_strlit("XZ");
    reveal_strlit("xz");
    reveal_strlit("Xz");
    reveal_strlit("xZ");
    reveal_strlit("-XZ");
    reveal_strlit("-xz");
    reveal_strlit("-Xz");
    reveal_strlit("-xZ");
    reveal_strlit("YZ");
    reveal_strlit("yz");
    reveal_strlit("Yz");
    reveal_strlit("yZ");
    reveal_strlit("-YZ");
    reveal_strlit("-yz");
    reveal_strlit("-Yz");
    reveal_strlit("-yZ");
    let name = data.spec_name()->Some_0;
    match data {
        PlaneData::XY => {},
        PlaneData::NegXY => {
            assert(name.len() == 3);
        },
        PlaneData::XZ => {
            assert(name[1] == 'Z');
        },
        PlaneData::NegXZ => {
            assert(name.len() == 3);
            assert(name[2] == 'Z');
        },
        PlaneData::YZ => {
            assert(name[0] == 'Y');
        },
        PlaneData::NegYZ => {
            assert(name.len() == 3);
            assert(name[1] == 'Y');
        },
        PlaneData::Plane { .. } => {},
    }
}

impl FromJson for PlaneData {
    open spec fn accepts(value: JsonView) -> bool {
        plane_of(value) is Some
    }

    open spec fn reads(value: JsonView, data: Self) -> bool {
        plane_of(value) == Some(data)
    }

    fn from_json(value: &JsonValue) -> (r: Option<Self>) {
        match value {
            JsonValue::String(name) => PlaneData::from_name(name.as_str()),
            _ => match value.get("plane") {
                Some(plane) => match (
                    get_point3d(plane, "origin"),
                    get_point3d(plane, "x_axis"),
                    get_point3d(plane, "y_axis"),
                    get_point3d(plane, "z_axis"),
                ) {
                    (Some(origin), Some(x_axis), Some(y_axis), Some(z_axis)) => Some(
                        PlaneData::Plane {
                            origin: Box::new(origin),
                            x_axis: Box::new(x_axis),
                            y_axis: Box::new(y_axis),
                            z_axis: Box::new(z_axis),
                        },
                    ),
                    _ => None,
                },
                None => None,
            },
        }
    }
}

/// The start or the end face that `name` stands for: `start` and `end`,
/// each also in capitals.
pub open spec fn start_or_end_named(name: Seq<char>) -> Option<StartOrEnd> {
    if name == "start"@ || name == "START"@ {
        Some(StartOrEnd::Start)
    } else if name == "end"@ || name == "END"@ {
        Some(StartOrEnd::End)
    } else {
        None
    }
}

impl FromJson for StartOrEnd {
    open spec fn accepts(value: JsonView) -> bool {
        value.string() is Some && start_or_end_named(value.string()->Some_0) is Some
    }

    open spec fn reads(value: JsonView, data: Self) -> bool {
        value.string() is Some && start_or_end_named(value.string()->Some_0) == Some(data)
    }

    fn from_json(value: &JsonValue) -> (r: Option<Self>) {
        match value {
            JsonValue::String(name) => {
                if *name == String::from_str("start") || *name == String::from_str("START") {
                    Some(StartOrEnd::Start)
                } else if *name == String::from_str("end") || *name == String::from_str("END") {
                    Some(StartOrEnd::End)
                } else {
                    None
                }
            },
            _ => None,
        }
    }
}

/// The tag for a face that is written as `name`.
pub open spec fn face_tag_named(name: Seq<char>) -> SketchOnFaceTagView {
    match start_or_end_named(name) {
        Some(face) => SketchOnFaceTagView::StartOrEnd(face),
        None => SketchOnFaceTagView::String(name),
    }
}

impl FromJson for SketchOnFaceTag {
    /// Any string is a tag.
    open spec fn accepts(value: JsonView) -> bool {
        value.string() is Some
    }

    /// A string that stands for the start or the end face is that face, and
    /// every other string is a string tag.
    open spec fn reads(value: JsonView, data: Self) -> bool {
        value.string() is Some && data@ == face_tag_named(value.string()->Some_0)
    }

    fn from_json(value: &JsonValue) -> (r: Option<Self>) {
        match StartOrEnd::from_json(value) {
            Some(face) => Some(SketchOnFaceTag::StartOrEnd(face)),
            None => match value.as_str() {
                Some(s) => Some(SketchOnFaceTag::String(String::from_str(s))),
                None => None,
            },
        }
    }
}

/// The arguments of a call: the values handed over, by position, and the
/// source range of the call.
#[derive(Debug, PartialEq)]
pub struct Args {
    pub args: Vec<MemoryItem>,
    pub source_range: SourceRange,
}

/// The user value at the first position, if there is one.
pub open spec fn data_value(items: Seq<MemoryItemView>) -> Option<JsonView> {
    if items.len() > 0 {
        match items[0] {
            MemoryItemView::UserVal { value, .. } => Some(value),
            _ => None,
        }
    } else {
        None
    }
}

/// The error for a call without a user value at the first position.
pub open spec fn no_data(source_range: SourceRange) -> KclErrorView {
    type_error("Expected a user value as the first argument"@, source_range)
}

/// The error for a first argument that has not the shape of the data.
pub open spec fn bad_data(source_range: SourceRange) -> KclErrorView {
    type_error("Failed to read the first argument as the data of the call"@, source_range)
}

/// The error for a call without a sketch group where one is due.
pub open spec fn no_sketch_group(source_range: SourceRange) -> KclErrorView {
    type_error("Expected a SketchGroup"@, source_range)
}

/// The error for a tag that is no string.
pub open spec fn bad_tag(source_range: SourceRange) -> KclErrorView {
    type_error("Expected a string as the tag"@, source_range)
}

/// Why the data of a call cannot be read as `T`, if it cannot.
pub open spec fn data_error<T: FromJson>(
    items: Seq<MemoryItemView>,
    source_range: SourceRange,
) -> Option<KclErrorView> {
    match data_value(items) {
        None => Some(no_data(source_range)),
        Some(value) => if T::accepts(value) {
            None
        } else {
            Some(bad_data(source_range))
        },
    }
}

/// The sketch group at the position `index`, if there is one.
pub open spec fn sketch_group_at(items: Seq<MemoryItemView>, index: int) -> Option<SketchGroupView> {
    if 0 <= index < items.len() {
        match items[index] {
            MemoryItemView::SketchGroup(sketch_group) => Some(sketch_group),
            _ => None,
        }
    } else {
        None
    }
}

/// The tag at the position `index`: the string there; none where the list
/// ends before it or holds null there; and not well-formed (`None`) where it
/// holds anything else.
pub open spec fn tag_at(items: Seq<MemoryItemView>, index: int) -> Option<Option<Seq<char>>> {
    if 0 <= index < items.len() {
        match items[index] {
            MemoryItemView::UserVal { value: JsonView::String(tag), .. } => Some(Some(tag)),
            MemoryItemView::UserVal { value: JsonView::Null, .. } => Some(None),
            _ => None,
        }
    } else {
        Some(None)
    }
}

/// The name that a tag gives: the tag, or the empty string.
pub open spec fn name_of(tag: Option<Seq<char>>) -> Seq<char> {
    match tag {
        Some(name) => name,
        None => Seq::empty(),
    }
}

/// What a string that may be missing holds.
pub open spec fn tag_view(tag: Option<String>) -> Option<Seq<char>> {
    match tag {
        Some(tag) => Some(tag@),
        None => None,
    }
}

/// What a drawing operation reads from its arguments: the data, the sketch
/// group it draws on, and the name of the new segment.
pub ghost struct Drawing {
    pub value: JsonView,
    pub sketch_group: SketchGroupView,
    pub name: Seq<char>,
}

/// Reads the arguments of a drawing operation: data of the kind `T` first,
/// then a sketch group, then a tag, which may be left out. The first of
/// these that does not fit is the error.
pub open spec fn drawing<T: FromJson>(items: Seq<MemoryItemView>, source_range: SourceRange) -> Result<
    Drawing,
    KclErrorView,
> {
    match data_error::<T>(items, source_range) {
        Some(e) => Err(e),
        None => match sketch_group_at(items, 1) {
            None => Err(no_sketch_group(source_range)),
            Some(sketch_group) => match tag_at(items, 2) {
                None => Err(bad_tag(source_range)),
                Some(tag) => Ok(
                    Drawing { value: data_value(items)->Some_0, sketch_group, name: name_of(tag) },
                ),
            },
        },
    }
}

/// Reads the arguments of an operation that takes a sketch group first and
/// then a tag, which may be left out.
pub open spec fn sketch_group_and_tag(items: Seq<MemoryItemView>, source_range: SourceRange) -> Result<
    (SketchGroupView, Seq<char>),
    KclErrorView,
> {
    match sketch_group_at(items, 0) {
        None => Err(no_sketch_group(source_range)),
        Some(sketch_group) => match tag_at(items, 1) {
            None => Err(bad_tag(source_range)),
            Some(tag) => Ok((sketch_group, name_of(tag))),
        },
    }
}

impl Args {
    /// The arguments `args` of the call at `source_range`.
    pub fn new(args: Vec<MemoryItem>, source_range: SourceRange) -> (r: Args)
        ensures
            r.args == args,
            r.source_range == source_range,
    {
        Args { args, source_range }
    }

    /// What the values hold, by position.
    pub open spec fn items(&self) -> Seq<MemoryItemView> {
        item_views(self.args@)
    }

    fn type_error(&self, message: &str) -> (r: KclError)
        ensures
            r@ == type_error(message@, self.source_range),
    {
        KclError::at(ErrorKind::Type, String::from_str(message), self.source_range)
    }

    /// The data of the call: the user value at the first position, read as
    /// `T`.
    pub fn get_data<T: FromJson>(&self) -> (r: Result<T, KclError>)
        ensures
            match data_error::<T>(self.items(), self.source_range) {
                Some(e) => r is Err && r->Err_0@ == e,
                None => r is Ok && T::reads(data_value(self.items())->Some_0, r->Ok_0),
            },
    {
        if self.args.len() == 0 {
            return Err(self.type_error("Expected a user value as the first argument"));
        }
        assert(self.items()[0] == self.args@[0]@);
        match &self.args[0] {
            MemoryItem::UserVal { value, .. } => match T::from_json(value) {
                Some(data) => Ok(data),
                None => Err(
                    self.type_error("Failed to read the first argument as the data of the call"),
                ),
            },
            _ => Err(self.type_error("Expected a user value as the first argument")),
        }
    }

    /// The sketch group at the position `index`.
    pub fn get_sketch_group(&self, index: usize) -> (r: Result<Box<SketchGroup>, KclError>)
        ensures
            match sketch_group_at(self.items(), index as int) {
                Some(sketch_group) => r is Ok && r->Ok_0@ == sketch_group,
                None => r is Err && r->Err_0@ == no_sketch_group(self.source_range),
            },
    {
        if index < self.args.len() {
            assert(self.items()[index as int] == self.args@[index as int]@);
            if let MemoryItem::SketchGroup(sketch_group) = &self.args[index] {
                let sketch_group: &SketchGroup = sketch_group;
                return Ok(Box::new(sketch_group.clone()));
            }
        }
        Err(self.type_error("Expected a SketchGroup"))
    }

    /// The tag at the position `index`, which may be left out.
    pub fn get_optional_tag(&self, index: usize) -> (r: Result<Option<String>, KclError>)
        ensures
            match tag_at(self.items(), index as int) {
                Some(tag) => r is Ok && tag_view(r->Ok_0) == tag,
                None => r is Err && r->Err_0@ == bad_tag(self.source_range),
            },
    {
        if index < self.args.len() {
            assert(self.items()[index as int] == self.args@[index as int]@);
            match &self.args[index] {
                MemoryItem::UserVal { value: JsonValue::String(tag), .. } => Ok(Some(tag.clone())),
                MemoryItem::UserVal { value: JsonValue::Null, .. } => Ok(None),
                _ => Err(self.type_error("Expected a string as the tag")),
            }
        } else {
            Ok(None)
        }
    }

    /// The data, the sketch group and the tag of a drawing operation, as
    /// [`drawing`] says.
    pub fn get_data_and_sketch_group_and_tag<T: FromJson>(&self) -> (r: Result<
        (T, Box<SketchGroup>, Option<String>),
        KclError,
    >)
        ensures
            match drawing::<T>(self.items(), self.source_range) {
                Err(e) => r is Err && r->Err_0@ == e,
                Ok(drawing) => {
                    &&& r is Ok
                    &&& T::reads(drawing.value, r->Ok_0.0)
                    &&& r->Ok_0.1@ == drawing.sketch_group
                    &&& tag_name(r->Ok_0.2) == drawing.name
                },
            },
    {
        let data = match self.get_data::<T>() {
            Ok(data) => data,
            Err(e) => {
                return Err(e);
            },
        };
        let sketch_group = match self.get_sketch_group(1) {
            Ok(sketch_group) => sketch_group,
            Err(e) => {
                return Err(e);
            },
        };
        let tag = match self.get_optional_tag(2) {
            Ok(tag) => tag,
            Err(e) => {
                return Err(e);
            },
        };
        Ok((data, sketch_group, tag))
    }

    /// The sketch group and the tag of an operation that takes no data, as
    /// [`sketch_group_and_tag`] says.
    pub fn get_sketch_group_and_optional_tag(&self) -> (r: Result<
        (Box<SketchGroup>, Option<String>),
        KclError,
    >)
        ensures
            match sketch_group_and_tag(self.items(), self.source_range) {
                Err(e) => r is Err && r->Err_0@ == e,
                Ok((sketch_group, name)) => {
                    &&& r is Ok
                    &&& r->Ok_0.0@ == sketch_group
                    &&& tag_name(r->Ok_0.1) == name
                },
            },
    {
        let sketch_group = match self.get_sketch_group(0) {
            Ok(sketch_group) => sketch_group,
            Err(e) => {
                return Err(e);
            },
        };
        let tag = match self.get_optional_tag(1) {
            Ok(tag) => tag,
            Err(e) => {
                return Err(e);
            },
        };
        Ok((sketch_group, tag))
    }
}

/// The error for a call without a plane or a face where one is due.
pub open spec fn no_sketch_surface(source_range: SourceRange) -> KclErrorView {
    type_error("Expected a plane or a face to sketch on"@, source_range)
}

/// The tag for a face at the position `index`: the string there, read as
/// [`face_tag_named`] says; none where the list ends before it or holds
/// null there; and not well-formed (`None`) where it holds anything else.
pub open spec fn face_tag_at(items: Seq<MemoryItemView>, index: int) -> Option<
    Option<SketchOnFaceTagView>,
> {
    match tag_at(items, index) {
        Some(Some(name)) => Some(Some(face_tag_named(name))),
        Some(None) => Some(None),
        None => None,
    }
}

/// What a face tag that may be missing holds.
pub open spec fn face_tag_view(tag: Option<SketchOnFaceTag>) -> Option<SketchOnFaceTagView> {
    match tag {
        Some(tag) => Some(tag@),
        None => None,
    }
}

/// What to sketch on, as the first argument of a call gives it: an extrude
/// group, or a user value that describes a plane.
pub open spec fn sketch_data_of(items: Seq<MemoryItemView>, source_range: SourceRange) -> Result<
    SketchDataView,
    KclErrorView,
> {
    if items.len() == 0 {
        Err(no_data(source_range))
    } else {
        match items[0] {
            MemoryItemView::ExtrudeGroup(extrude_group) => Ok(
                SketchDataView::ExtrudeGroup(extrude_group),
            ),
            MemoryItemView::UserVal { value, .. } => match plane_of(value) {
                Some(plane) => Ok(SketchDataView::Plane(plane)),
                None => Err(bad_data(source_range)),
            },
            _ => Err(no_data(source_range)),
        }
    }
}

/// Reads the arguments of a call that starts a sketch: what to sketch on,
/// then a tag for a face, which may be left out.
pub open spec fn sketch_on(items: Seq<MemoryItemView>, source_range: SourceRange) -> Result<
    (SketchDataView, Option<SketchOnFaceTagView>),
    KclErrorView,
> {
    match sketch_data_of(items, source_range) {
        Err(e) => Err(e),
        Ok(data) => match face_tag_at(items, 1) {
            None => Err(bad_tag(source_range)),
            Some(tag) => Ok((data, tag)),
        },
    }
}

/// The plane or face at the position `index`, if there is one.
pub open spec fn sketch_surface_at(items: Seq<MemoryItemView>, index: int) -> Option<SketchSurfaceView> {
    if 0 <= index < items.len() {
        match items[index] {
            MemoryItemView::Plane(plane) => Some(SketchSurfaceView::Plane(plane)),
            MemoryItemView::Face(face) => Some(SketchSurfaceView::Face(face)),
            _ => None,
        }
    } else {
        None
    }
}

/// What the start of a profile reads from its arguments.
pub ghost struct Profile {
    pub to: Point2d,
    pub surface: SketchSurfaceView,
    pub name: Seq<char>,
}

/// Reads the arguments of a call that starts a profile: a point, then the
/// plane or face to sketch on, then a tag, which may be left out.
pub open spec fn profile(items: Seq<MemoryItemView>, source_range: SourceRange) -> Result<
    Profile,
    KclErrorView,
> {
    match data_error::<Point2d>(items, source_range) {
        Some(e) => Err(e),
        None => match sketch_surface_at(items, 1) {
            None => Err(no_sketch_surface(source_range)),
            Some(surface) => match tag_at(items, 2) {
                None => Err(bad_tag(source_range)),
                Some(tag) => Ok(
                    Profile {
                        to: point_of(data_value(items)->Some_0)->Some_0,
                        surface,
                        name: name_of(tag),
                    },
                ),
            },
        },
    }
}

/// The sketch groups at the first position: one sketch group, or several.
pub open spec fn sketch_groups_of(items: Seq<MemoryItemView>) -> Option<Seq<SketchGroupView>> {
    if items.len() > 0 {
        match items[0] {
            MemoryItemView::SketchGroup(sketch_group) => Some(seq![sketch_group]),
            MemoryItemView::SketchGroups { value } => Some(value),
            _ => None,
        }
    } else {
        None
    }
}

/// Reads the arguments of a call that cuts holes: the sketch groups that
/// give the holes their shape, then the sketch group to cut them out of.
pub open spec fn holes(items: Seq<MemoryItemView>, source_range: SourceRange) -> Result<
    (Seq<SketchGroupView>, SketchGroupView),
    KclErrorView,
> {
    match sketch_groups_of(items) {
        None => Err(no_sketch_group(source_range)),
        Some(groups) => match sketch_group_at(items, 1) {
            None => Err(no_sketch_group(source_range)),
            Some(sketch_group) => Ok((groups, sketch_group)),
        },
    }
}

impl Args {
    /// What to sketch on and the tag of a face, as [`sketch_on`] says.
    pub fn get_data_and_optional_tag(&self) -> (r: Result<
        (SketchData, Option<SketchOnFaceTag>),
        KclError,
    >)
        ensures
            match sketch_on(self.items(), self.source_range) {
                Err(e) => r is Err && r->Err_0@ == e,
                Ok((data, tag)) => r is Ok && r->Ok_0.0@ == data && face_tag_view(r->Ok_0.1) == tag,
            },
    {
        if self.args.len() == 0 {
            return Err(self.type_error("Expected a user value as the first argument"));
        }
        assert(self.items()[0] == self.args@[0]@);
        let data = match &self.args[0] {
            MemoryItem::ExtrudeGroup(extrude_group) => {
                let extrude_group: &ExtrudeGroup = extrude_group;
                SketchData::ExtrudeGroup(Box::new(extrude_group.clone()))
            },
            MemoryItem::UserVal { value, .. } => match PlaneData::from_json(value) {
                Some(plane) => SketchData::Plane(plane),
                None => {
                    return Err(
                        self.type_error("Failed to read the first argument as the data of the call"),
                    );
                },
            },
            _ => {
                return Err(self.type_error("Expected a user value as the first argument"));
            },
        };
        let tag = match self.get_optional_tag(1) {
            Ok(Some(tag)) => {
                let face_tag = SketchOnFaceTag::from_json(&JsonValue::String(tag));
                match face_tag {
                    Some(face_tag) => Some(face_tag),
                    None => None,
                }
            },
            Ok(None) => None,
            Err(e) => {
                return Err(e);
            },
        };
        Ok((data, tag))
    }

    /// The plane or face at the position `index`.
    pub fn get_sketch_surface(&self, index: usize) -> (r: Result<SketchSurface, KclError>)
        ensures
            match sketch_surface_at(self.items(), index as int) {
                Some(surface) => r is Ok && r->Ok_0@ == surface,
                None => r is Err && r->Err_0@ == no_sketch_surface(self.source_range),
            },
    {
        if index < self.args.len() {
            assert(self.items()[index as int] == self.args@[index as int]@);
            match &self.args[index] {
                MemoryItem::Plane(plane) => {
                    let plane: &crate::geometry::Plane = plane;
                    return Ok(SketchSurface::Plane(Box::new(plane.clone())));
                },
                MemoryItem::Face(face) => {
                    let face: &crate::geometry::Face = face;
                    return Ok(SketchSurface::Face(Box::new(face.clone())));
                },
                _ => {},
            }
        }
        Err(self.type_error("Expected a plane or a face to sketch on"))
    }

    /// The point, the surface and the tag of a call that starts a profile,
    /// as [`profile`] says.
    pub fn get_data_and_sketch_surface(&self) -> (r: Result<
        (Point2d, SketchSurface, Option<String>),
        KclError,
    >)
        ensures
            match profile(self.items(), self.source_range) {
                Err(e) => r is Err && r->Err_0@ == e,
                Ok(profile) => {
                    &&& r is Ok
                    &&& r->Ok_0.0 == profile.to
                    &&& r->Ok_0.1@ == profile.surface
                    &&& tag_name(r->Ok_0.2) == profile.name
                },
            },
    {
        let data = match self.get_data::<Point2d>() {
            Ok(data) => data,
            Err(e) => {
                return Err(e);
            },
        };
        let surface = match self.get_sketch_surface(1) {
            Ok(surface) => surface,
            Err(e) => {
                return Err(e);
            },
        };
        let tag = match self.get_optional_tag(2) {
            Ok(tag) => tag,
            Err(e) => {
                return Err(e);
            },
        };
        Ok((data, surface, tag))
    }

    /// The sketch groups of a call that cuts holes, as [`holes`] says.
    pub fn get_sketch_groups(&self) -> (r: Result<(SketchGroupSet, Box<SketchGroup>), KclError>)
        ensures
            match holes(self.items(), self.source_range) {
                Err(e) => r is Err && r->Err_0@ == e,
                Ok((groups, sketch_group)) => r is Ok && r->Ok_0.0@ == groups && r->Ok_0.1@
                    == sketch_group,
            },
    {
        if self.args.len() == 0 {
            return Err(self.type_error("Expected a SketchGroup"));
        }
        assert(self.items()[0] == self.args@[0]@);
        let set = match &self.args[0] {
            MemoryItem::SketchGroup(sketch_group) => {
                let sketch_group: &SketchGroup = sketch_group;
                let set = SketchGroupSet::SketchGroup(Box::new(sketch_group.clone()));
                assert(set@ =~= seq![sketch_group@]);
                set
            },
            MemoryItem::SketchGroups { value } => SketchGroupSet::SketchGroups(
                clone_sketch_groups(value),
            ),
            _ => {
                return Err(self.type_error("Expected a SketchGroup"));
            },
        };
        let sketch_group = match self.get_sketch_group(1) {
            Ok(sketch_group) => sketch_group,
            Err(e) => {
                return Err(e);
            },
        };
        Ok((set, sketch_group))
    }
}

/// Why the value `item` cannot be read as data of the kind `T`, if it
/// cannot.
pub open spec fn item_data_error<T: FromJson>(item: MemoryItemView, source_range: SourceRange) -> Option<
    KclErrorView,
> {
    match item {
        MemoryItemView::UserVal { value, .. } => if T::accepts(value) {
            None
        } else {
            Some(bad_data(source_range))
        },
        _ => Some(no_data(source_range)),
    }
}

/// The value `item`, read as data of the kind `T`.
pub fn item_data<T: FromJson>(item: &MemoryItem, source_range: SourceRange) -> (r: Result<T, KclError>)
    ensures
        match item_data_error::<T>(item@, source_range) {
            Some(e) => r is Err && r->Err_0@ == e,
            None => r is Ok && T::reads(item@->UserVal_value, r->Ok_0),
        },
{
    match item {
        MemoryItem::UserVal { value, .. } => match T::from_json(value) {
            Some(data) => Ok(data),
            None => Err(
                KclError::at(
                    ErrorKind::Type,
                    String::from_str("Failed to read the first argument as the data of the call"),
                    source_range,
                ),
            ),
        },
        _ => Err(
            KclError::at(
                ErrorKind::Type,
                String::from_str("Expected a user value as the first argument"),
                source_range,
            ),
        ),
    }
}

/// The sketch group that the value `item` is.
pub fn item_sketch_group(item: &MemoryItem, source_range: SourceRange) -> (r: Result<
    Box<SketchGroup>,
    KclError,
>)
    ensures
        match item@ {
            MemoryItemView::SketchGroup(sketch_group) => r is Ok && r->Ok_0@ == sketch_group,
            _ => r is Err && r->Err_0@ == no_sketch_group(source_range),
        },
{
    match item {
        MemoryItem::SketchGroup(sketch_group) => {
            let sketch_group: &SketchGroup = sketch_group;
            Ok(Box::new(sketch_group.clone()))
        },
        _ => Err(KclError::at(ErrorKind::Type, String::from_str("Expected a SketchGroup"), source_range)),
    }
}

/// The tag that the value `item` is: a string, or none for null.
pub open spec fn item_tag_of(item: MemoryItemView) -> Option<Option<Seq<char>>> {
    match item {
        MemoryItemView::UserVal { value: JsonView::String(tag), .. } => Some(Some(tag)),
        MemoryItemView::UserVal { value: JsonView::Null, .. } => Some(None),
        _ => None,
    }
}

/// The tag that the value `item` is: a string, or none for null.
pub fn item_tag(item: &MemoryItem, source_range: SourceRange) -> (r: Result<Option<String>, KclError>)
    ensures
        match item_tag_of(item@) {
            Some(tag) => r is Ok && tag_view(r->Ok_0) == tag,
            None => r is Err && r->Err_0@ == bad_tag(source_range),
        },
{
    match item {
        MemoryItem::UserVal { value: JsonValue::String(tag), .. } => Ok(Some(tag.clone())),
        MemoryItem::UserVal { value: JsonValue::Null, .. } => Ok(None),
        _ => Err(
            KclError::at(ErrorKind::Type, String::from_str("Expected a string as the tag"), source_range),
        ),
    }
}

fn field(key: &str, value: JsonValue) -> (r: (String, JsonValue))
    ensures
        r.0@ == key@,
        r.1@ == value@,
{
    (String::from_str(key), value)
}

fn object(fields: Vec<(String, JsonValue)>) -> (r: JsonValue)
    ensures
        r@ is Object,
        r@->Object_0.len() == fields@.len(),
        forall|i: int|
            0 <= i < fields@.len() ==> #[trigger] r@->Object_0[i] == (fields@[i].0@, fields@[i].1@),
{
    JsonValue::Object(fields)
}

/// A point in space as a user value: a mapping with the numbers `x`, `y`
/// and `z`, in this order.
pub open spec fn point3d_json(point: Point3d) -> JsonView {
    JsonView::Object(
        seq![
            ("x"@, JsonView::Number(point.x)),
            ("y"@, JsonView::Number(point.y)),
            ("z"@, JsonView::Number(point.z)),
        ],
    )
}

/// A plane as a user value: the name `XY`, `-XY`, `XZ`, `-XZ`, `YZ` or
/// `-YZ` of a plane that the engine provides; and for a plane given by its
/// origin and axes a mapping that holds, under `plane`, the points in space
/// `origin`, `x_axis`, `y_axis` and `z_axis`, in this order.
pub open spec fn plane_json(data: PlaneData) -> JsonView {
    match data {
        PlaneData::Plane { origin, x_axis, y_axis, z_axis } => JsonView::Object(
            seq![
                (
                    "plane"@,
                    JsonView::Object(
                        seq![
                            ("origin"@, point3d_json(*origin)),
                            ("x_axis"@, point3d_json(*x_axis)),
                            ("y_axis"@, point3d_json(*y_axis)),
                            ("z_axis"@, point3d_json(*z_axis)),
                        ],
                    ),
                ),
            ],
        ),
        _ => JsonView::String(data.spec_name()->Some_0),
    }
}

impl Point3d {
    /// The point as a user value, as [`point3d_json`] says. The point is
    /// read back from it.
    pub fn to_json(&self) -> (r: JsonValue)
        ensures
            r@ == point3d_json(*self),
            point3d_of(r@) == Some(*self),
    {
        let mut fields: Vec<(String, JsonValue)> = Vec::new();
        fields.push(field("x", JsonValue::Number(self.x)));
        fields.push(field("y", JsonValue::Number(self.y)));
        fields.push(field("z", JsonValue::Number(self.z)));
        let r = object(fields);
        proof {
            reveal_strlit("x");
            reveal_strlit("y");
            reveal_strlit("z");
            let views = r@->Object_0;
            assert(views[0].0 == "x"@ && views[1].0 == "y"@ && views[2].0 == "z"@);
            assert("x"@[0] != "y"@[0] && "x"@[0] != "z"@[0] && "y"@[0] != "z"@[0]);
            crate::json::lemma_find_field_skip(views, "x"@, 0);
            crate::json::lemma_find_field_skip(views, "y"@, 1);
            crate::json::lemma_find_field_skip(views, "z"@, 2);
            assert(views.skip(0)[0] == views[0]);
            assert(views.skip(1)[0] == views[1]);
            assert(views.skip(2)[0] == views[2]);
            assert(views =~= point3d_json(*self)->Object_0);
        }
        r
    }
}

impl PlaneData {
    /// The plane as a user value, as [`plane_json`] says. The plane is read
    /// back from it.
    pub fn to_json(&self) -> (r: JsonValue)
        ensures
            r@ == plane_json(*self),
            plane_of(r@) == Some(*self),
    {
        match self {
            PlaneData::Plane { origin, x_axis, y_axis, z_axis } => {
                let mut fields: Vec<(String, JsonValue)> = Vec::new();
                fields.push(field("origin", origin.to_json()));
                fields.push(field("x_axis", x_axis.to_json()));
                fields.push(field("y_axis", y_axis.to_json()));
                fields.push(field("z_axis", z_axis.to_json()));
                let plane = object(fields);
                proof {
                    reveal_strlit("origin");
                    reveal_strlit("x_axis");
                    reveal_strlit("y_axis");
                    reveal_strlit("z_axis");
                    let views = plane@->Object_0;
                    assert("origin"@[0] != "x_axis"@[0] && "origin"@[0] != "y_axis"@[0] && "origin"@[0]
                        != "z_axis"@[0]);
                    assert("x_axis"@[0] != "y_axis"@[0] && "x_axis"@[0] != "z_axis"@[0] && "y_axis"@[0]
                        != "z_axis"@[0]);
                    crate::json::lemma_find_field_skip(views, "origin"@, 0);
                    crate::json::lemma_find_field_skip(views, "x_axis"@, 1);
                    crate::json::lemma_find_field_skip(views, "y_axis"@, 2);
                    crate::json::lemma_find_field_skip(views, "z_axis"@, 3);
                    assert(views.skip(0)[0] == views[0]);
                    assert(views.skip(1)[0] == views[1]);
                    assert(views.skip(2)[0] == views[2]);
                    assert(views.skip(3)[0] == views[3]);
                    assert(custom_plane_of(plane@) == Some(*self));
                    assert(views =~= plane_json(*self)->Object_0[0].1->Object_0);
                }
                let mut outer: Vec<(String, JsonValue)> = Vec::new();
                outer.push(field("plane", plane));
                let r = object(outer);
                proof {
                    let views = r@->Object_0;
                    assert(views[0].0 == "plane"@);
                    assert(r@.field("plane"@) == Some(plane@));
                    assert(views =~= plane_json(*self)->Object_0);
                }
                r
            },
            _ => {
                let name = match self.name() {
                    Some(name) => name,
                    None => "",
                };
                proof {
                    lemma_plane_name_is_read_back(*self);
                }
                JsonValue::String(String::from_str(name))
            },
        }
    }
}

} // verus!
