//! Functions related to sketching.
//!
//! Each operation takes the sketch it works on by value and gives back the
//! sketch that results, having put the commands it issues at the end of a
//! [`CommandBatch`]. Where an operation needs a point or an angle that has
//! to be calculated, the caller hands the calculated value in.
//!
//! An operation of the language comes as a pair of functions. The one named
//! like the operation reads its arguments from the values of a call, draws
//! the ids it needs afresh, and calls the other. The other, with the prefix
//! `inner_`, takes typed arguments and every id it uses, and its contract
//! says exactly what it produces. Cutting holes is the exception:
//! [`inner_hole`] draws its ids itself, a pair for each hole, and
//! [`cut_hole`] is the part that takes them.

use vstd::prelude::*;
use vstd::std_specs::iter::IteratorSpec;
use crate::args::{
    angled_line_to_of, arc_of, bad_tag, bezier_of, data_error, data_value, drawing, face_tag_view, holes,
    item_data, item_data_error, item_sketch_group, item_tag, name_of, no_sketch_group, point_of, profile,
    sketch_group_and_tag, sketch_on, tag_at, tag_view, tangential_arc_of, Args, Drawing,
};
use crate::engine::{
    is_random_uuid, new_id, Angle, CommandBatch, DefaultPlanes, EngineCommand, ModelingCmd, PathSegment,
    UnitAngle,
};
use crate::errors::{message_about, type_error, ErrorKind, KclError, KclErrorView};
use crate::geometry::{
    first_path, first_surface, lemma_with_segment_contiguous, path_has_name, surface_has_name, BasePath,
    BasePathView, ExtrudeGroup, ExtrudeGroupView, ExtrudeSurface, ExtrudeSurfaceView, Face, FaceView,
    GeoMeta, Path, PathView, Plane, PlaneType, PlaneView, Point2d, Point3d, Position, Rotation, SketchGroup,
    SketchGroupSet, SketchGroupView, SketchSurface, SketchSurfaceView,
};
use crate::memory::{MemoryItem, MemoryItemView};
use crate::number::Number;
use crate::source::{Metadata, SourceRange};

verus! {

/// The name that a tag gives a segment: the tag, or the empty string.
pub open spec fn tag_name(tag: Option<String>) -> Seq<char> {
    name_of(tag_view(tag))
}

/// What every new segment has: it runs from `from` to `to`, is named by
/// `tag`, and has the id of the command that draws it.
pub open spec fn segment_base(
    from: Point2d,
    to: Point2d,
    name: Seq<char>,
    id: u128,
    source_range: SourceRange,
) -> BasePathView {
    BasePathView { from, to, name, geo_meta: GeoMeta::new(id, source_range) }
}

/// A straight segment to a point.
pub open spec fn segment_to_point(
    from: Point2d,
    to: Point2d,
    name: Seq<char>,
    id: u128,
    source_range: SourceRange,
) -> PathView {
    PathView::ToPoint { base: segment_base(from, to, name, id, source_range) }
}

fn new_base(from: Point2d, to: Point2d, tag: Option<String>, id: u128, source_range: SourceRange) -> (r:
    BasePath)
    ensures
        r@ == segment_base(from, to, tag_name(tag), id, source_range),
{
    let name = match tag {
        Some(name) => name,
        None => String::new(),
    };
    BasePath { from, to, name, geo_meta: GeoMeta::new(id, source_range) }
}

fn push_segment(sketch_group: Box<SketchGroup>, segment: Path) -> (r: Box<SketchGroup>)
    ensures
        r@ == sketch_group@.with_segment(segment@),
        sketch_group@.contiguous() && segment@.base().from == sketch_group@.coords()
            ==> r@.contiguous(),
{
    let mut new_sketch_group = sketch_group;
    new_sketch_group.value.push(segment);
    assert(new_sketch_group@.value =~= sketch_group@.value.push(segment@));
    proof {
        if sketch_group@.contiguous() && segment@.base().from == sketch_group@.coords() {
            lemma_with_segment_contiguous(sketch_group@, segment@);
        }
    }
    new_sketch_group
}

/// What an operation on a sketch does: the sketch that results, and the
/// commands that it issues, in order.
pub ghost struct Effect {
    pub sketch_group: SketchGroupView,
    pub commands: Seq<EngineCommand>,
}

/// The effect of drawing one segment: the segment is added to the sketch,
/// and the command that draws it is issued under the id of the segment.
pub open spec fn draws(sketch_group: SketchGroupView, segment: PathView, cmd: ModelingCmd) -> Effect {
    Effect {
        sketch_group: sketch_group.with_segment(segment),
        commands: seq![EngineCommand { id: segment.base().geo_meta.id, cmd }],
    }
}

/// Whether an operation has had the effect `effect`: `r` is the sketch that
/// results, and the commands have gone to the end of the batch.
pub open spec fn done(
    r: SketchGroupView,
    after: Seq<EngineCommand>,
    before: Seq<EngineCommand>,
    effect: Effect,
) -> bool {
    r == effect.sketch_group && after == before + effect.commands
}

/// Whether an operation on the arguments of a call has had the effect
/// `effect`, and has given the sketch that results as its value.
pub open spec fn drew(
    r: Result<MemoryItem, KclError>,
    after: Seq<EngineCommand>,
    before: Seq<EngineCommand>,
    effect: Effect,
) -> bool {
    &&& r is Ok
    &&& r->Ok_0@ == MemoryItemView::SketchGroup(effect.sketch_group)
    &&& after == before + effect.commands
}

/// Whether an operation on the arguments of a call has failed with the
/// error `e`, and has issued nothing.
pub open spec fn failed(
    r: Result<MemoryItem, KclError>,
    after: Seq<EngineCommand>,
    before: Seq<EngineCommand>,
    e: KclErrorView,
) -> bool {
    r is Err && r->Err_0@ == e && after == before
}

fn draw(sketch_group: Box<SketchGroup>, segment: Path, cmd: ModelingCmd, batch: &mut CommandBatch) -> (r:
    Box<SketchGroup>)
    ensures
        done(r@, final(batch)@, old(batch)@, draws(sketch_group@, segment@, cmd)),
        sketch_group@.contiguous() && segment@.base().from == sketch_group@.coords()
            ==> r@.contiguous(),
{
    let ghost before = batch@;
    batch.send_modeling_cmd(segment.get_id(), cmd);
    assert(batch@ =~= before + draws(sketch_group@, segment@, cmd).commands);
    push_segment(sketch_group, segment)
}

/// The effect of a line to the absolute point `to`.
pub open spec fn line_to_effect(
    to: Point2d,
    sketch_group: SketchGroupView,
    name: Seq<char>,
    source_range: SourceRange,
    id: u128,
) -> Effect {
    draws(
        sketch_group,
        segment_to_point(sketch_group.coords(), to, name, id, source_range),
        ModelingCmd::ExtendPath {
            path: sketch_group.id,
            segment: PathSegment::Line { end: to.flat(), relative: false },
        },
    )
}

/// The effect of a line by the offset `delta`, which ends at `to`.
pub open spec fn line_effect(
    delta: Point2d,
    to: Point2d,
    sketch_group: SketchGroupView,
    name: Seq<char>,
    source_range: SourceRange,
    id: u128,
) -> Effect {
    draws(
        sketch_group,
        segment_to_point(sketch_group.coords(), to, name, id, source_range),
        ModelingCmd::ExtendPath {
            path: sketch_group.id,
            segment: PathSegment::Line { end: delta.flat(), relative: true },
        },
    )
}

/// Draw a line to a point.
///
/// Issues, under the id `id`, the command that extends the path by a line
/// to the absolute point `to`, and adds to the sketch the segment from the
/// pen to `to`.
pub fn inner_line_to(
    to: Point2d,
    sketch_group: Box<SketchGroup>,
    tag: Option<String>,
    source_range: SourceRange,
    id: u128,
    batch: &mut CommandBatch,
) -> (r: Box<SketchGroup>)
    ensures
        done(
            r@,
            final(batch)@,
            old(batch)@,
            line_to_effect(to, sketch_group@, tag_name(tag), source_range, id),
        ),
        sketch_group@.contiguous() ==> r@.contiguous(),
{
    let from = sketch_group.coords();
    let current_path = Path::ToPoint { base: new_base(from, to, tag, id, source_range) };
    let path = sketch_group.id;
    draw(
        sketch_group,
        current_path,
        ModelingCmd::ExtendPath { path, segment: PathSegment::Line { end: to.flat(), relative: false } },
        batch,
    )
}

/// Draw a line to a point.
///
/// Reads the point, the sketch group and the tag from `args`, and draws the
/// line under a fresh id, as [`inner_line_to`] does.
pub fn line_to(args: Args, batch: &mut CommandBatch) -> (r: Result<MemoryItem, KclError>)
    ensures
        match drawing::<Point2d>(args.items(), args.source_range) {
            Err(e) => failed(r, final(batch)@, old(batch)@, e),
            Ok(call) => exists|id: u128|
                #[trigger] is_random_uuid(id) && drew(
                    r,
                    final(batch)@,
                    old(batch)@,
                    line_to_effect(
                        point_of(call.value)->Some_0,
                        call.sketch_group,
                        call.name,
                        args.source_range,
                        id,
                    ),
                ),
        },
{
    let (to, sketch_group, tag) = match args.get_data_and_sketch_group_and_tag::<Point2d>() {
        Ok(read) => read,
        Err(e) => {
            return Err(e);
        },
    };
    let id = new_id();
    let new_sketch_group = inner_line_to(to, sketch_group, tag, args.source_range, id, batch);
    Ok(MemoryItem::SketchGroup(new_sketch_group))
}

/// The point at the x coordinate `to`, at the height of the pen.
pub open spec fn at_x(sketch_group: SketchGroupView, to: Number) -> Point2d {
    Point2d { x: to, y: sketch_group.coords().y }
}

/// The point at the y coordinate `to`, straight above or below the pen.
pub open spec fn at_y(sketch_group: SketchGroupView, to: Number) -> Point2d {
    Point2d { x: sketch_group.coords().x, y: to }
}

/// Draw a line to a point on the x-axis: to the x coordinate `to`, at the
/// height of the pen.
pub fn inner_x_line_to(
    to: Number,
    sketch_group: Box<SketchGroup>,
    tag: Option<String>,
    source_range: SourceRange,
    id: u128,
    batch: &mut CommandBatch,
) -> (r: Box<SketchGroup>)
    ensures
        done(
            r@,
            final(batch)@,
            old(batch)@,
            line_to_effect(at_x(sketch_group@, to), sketch_group@, tag_name(tag), source_range, id),
        ),
        sketch_group@.contiguous() ==> r@.contiguous(),
{
    let from = sketch_group.coords();
    inner_line_to(Point2d { x: to, y: from.y }, sketch_group, tag, source_range, id, batch)
}

/// Draw a line to a point on the x-axis.
///
/// Reads the coordinate, the sketch group and the tag from `args`, and
/// draws the line under a fresh id, as [`inner_x_line_to`] does.
pub fn x_line_to(args: Args, batch: &mut CommandBatch) -> (r: Result<MemoryItem, KclError>)
    ensures
        match drawing::<Number>(args.items(), args.source_range) {
            Err(e) => failed(r, final(batch)@, old(batch)@, e),
            Ok(call) => exists|id: u128|
                #[trigger] is_random_uuid(id) && drew(
                    r,
                    final(batch)@,
                    old(batch)@,
                    line_to_effect(
                        at_x(call.sketch_group, call.value.number()->Some_0),
                        call.sketch_group,
                        call.name,
                        args.source_range,
                        id,
                    ),
                ),
        },
{
    let (to, sketch_group, tag) = match args.get_data_and_sketch_group_and_tag::<Number>() {
        Ok(read) => read,
        Err(e) => {
            return Err(e);
        },
    };
    let id = new_id();
    let new_sketch_group = inner_x_line_to(to, sketch_group, tag, args.source_range, id, batch);
    Ok(MemoryItem::SketchGroup(new_sketch_group))
}

/// Draw a line to a point on the y-axis: to the y coordinate `to`, straight
/// above or below the pen.
pub fn inner_y_line_to(
    to: Number,
    sketch_group: Box<SketchGroup>,
    tag: Option<String>,
    source_range: SourceRange,
    id: u128,
    batch: &mut CommandBatch,
) -> (r: Box<SketchGroup>)
    ensures
        done(
            r@,
            final(batch)@,
            old(batch)@,
            line_to_effect(at_y(sketch_group@, to), sketch_group@, tag_name(tag), source_range, id),
        ),
        sketch_group@.contiguous() ==> r@.contiguous(),
{
    let from = sketch_group.coords();
    inner_line_to(Point2d { x: from.x, y: to }, sketch_group, tag, source_range, id, batch)
}

/// Draw a line to a point on the y-axis.
///
/// Reads the coordinate, the sketch group and the tag from `args`, and
/// draws the line under a fresh id, as [`inner_y_line_to`] does.
pub fn y_line_to(args: Args, batch: &mut CommandBatch) -> (r: Result<MemoryItem, KclError>)
    ensures
        match drawing::<Number>(args.items(), args.source_range) {
            Err(e) => failed(r, final(batch)@, old(batch)@, e),
            Ok(call) => exists|id: u128|
                #[trigger] is_random_uuid(id) && drew(
                    r,
                    final(batch)@,
                    old(batch)@,
                    line_to_effect(
                        at_y(call.sketch_group, call.value.number()->Some_0),
                        call.sketch_group,
                        call.name,
                        args.source_range,
                        id,
                    ),
                ),
        },
{
    let (to, sketch_group, tag) = match args.get_data_and_sketch_group_and_tag::<Number>() {
        Ok(read) => read,
        Err(e) => {
            return Err(e);
        },
    };
    let id = new_id();
    let new_sketch_group = inner_y_line_to(to, sketch_group, tag, args.source_range, id, batch);
    Ok(MemoryItem::SketchGroup(new_sketch_group))
}

/// Draw a line.
///
/// `delta` is the line as an offset from the pen, and `to` the point that
/// the caller has calculated for its end: the pen moved by `delta`. The
/// command carries `delta`, as a relative line; the new segment runs from
/// the pen to `to`.
pub fn inner_line(
    delta: Point2d,
    to: Point2d,
    sketch_group: Box<SketchGroup>,
    tag: Option<String>,
    source_range: SourceRange,
    id: u128,
    batch: &mut CommandBatch,
) -> (r: Box<SketchGroup>)
    ensures
        done(
            r@,
            final(batch)@,
            old(batch)@,
            line_effect(delta, to, sketch_group@, tag_name(tag), source_range, id),
        ),
        sketch_group@.contiguous() ==> r@.contiguous(),
{
    let from = sketch_group.coords();
    let current_path = Path::ToPoint { base: new_base(from, to, tag, id, source_range) };
    let path = sketch_group.id;
    draw(
        sketch_group,
        current_path,
        ModelingCmd::ExtendPath { path, segment: PathSegment::Line { end: delta.flat(), relative: true } },
        batch,
    )
}

/// Draw a line.
///
/// Reads the offset, the sketch group and the tag from `args`, and draws
/// the line under a fresh id, as [`inner_line`] does. `to` is the pen moved
/// by the offset, as the caller has calculated it.
pub fn line(args: Args, to: Point2d, batch: &mut CommandBatch) -> (r: Result<MemoryItem, KclError>)
    ensures
        match drawing::<Point2d>(args.items(), args.source_range) {
            Err(e) => failed(r, final(batch)@, old(batch)@, e),
            Ok(call) => exists|id: u128|
                #[trigger] is_random_uuid(id) && drew(
                    r,
                    final(batch)@,
                    old(batch)@,
                    line_effect(
                        point_of(call.value)->Some_0,
                        to,
                        call.sketch_group,
                        call.name,
                        args.source_range,
                        id,
                    ),
                ),
        },
{
    let (delta, sketch_group, tag) = match args.get_data_and_sketch_group_and_tag::<Point2d>() {
        Ok(read) => read,
        Err(e) => {
            return Err(e);
        },
    };
    let id = new_id();
    let new_sketch_group = inner_line(delta, to, sketch_group, tag, args.source_range, id, batch);
    Ok(MemoryItem::SketchGroup(new_sketch_group))
}

/// The offset of the length `length` along the x-axis.
pub open spec fn along_x(length: Number) -> Point2d {
    Point2d { x: length, y: Number::zero() }
}

/// The offset of the length `length` along the y-axis.
pub open spec fn along_y(length: Number) -> Point2d {
    Point2d { x: Number::zero(), y: length }
}

/// Draw a line on the x-axis, of the given length. `to` is the pen moved by
/// `[length, 0.0]`, as the caller has calculated it.
pub fn inner_x_line(
    length: Number,
    to: Point2d,
    sketch_group: Box<SketchGroup>,
    tag: Option<String>,
    source_range: SourceRange,
    id: u128,
    batch: &mut CommandBatch,
) -> (r: Box<SketchGroup>)
    ensures
        done(
            r@,
            final(batch)@,
            old(batch)@,
            line_effect(along_x(length), to, sketch_group@, tag_name(tag), source_range, id),
        ),
        sketch_group@.contiguous() ==> r@.contiguous(),
{
    inner_line(
        Point2d { x: length, y: Number::zero() },
        to,
        sketch_group,
        tag,
        source_range,
        id,
        batch,
    )
}

/// Draw a line on the x-axis.
///
/// Reads the length, the sketch group and the tag from `args`, and draws
/// the line under a fresh id, as [`inner_x_line`] does. `to` is the pen
/// moved by `[length, 0.0]`, as the caller has calculated it.
pub fn x_line(args: Args, to: Point2d, batch: &mut CommandBatch) -> (r: Result<MemoryItem, KclError>)
    ensures
        match drawing::<Number>(args.items(), args.source_range) {
            Err(e) => failed(r, final(batch)@, old(batch)@, e),
            Ok(call) => exists|id: u128|
                #[trigger] is_random_uuid(id) && drew(
                    r,
                    final(batch)@,
                    old(batch)@,
                    line_effect(
                        along_x(call.value.number()->Some_0),
                        to,
                        call.sketch_group,
                        call.name,
                        args.source_range,
                        id,
                    ),
                ),
        },
{
    let (length, sketch_group, tag) = match args.get_data_and_sketch_group_and_tag::<Number>() {
        Ok(read) => read,
        Err(e) => {
            return Err(e);
        },
    };
    let id = new_id();
    let new_sketch_group = inner_x_line(length, to, sketch_group, tag, args.source_range, id, batch);
    Ok(MemoryItem::SketchGroup(new_sketch_group))
}

/// Draw a line on the y-axis, of the given length. `to` is the pen moved by
/// `[0.0, length]`, as the caller has calculated it.
pub fn inner_y_line(
    length: Number,
    to: Point2d,
    sketch_group: Box<SketchGroup>,
    tag: Option<String>,
    source_range: SourceRange,
    id: u128,
    batch: &mut CommandBatch,
) -> (r: Box<SketchGroup>)
    ensures
        done(
            r@,
            final(batch)@,
            old(batch)@,
            line_effect(along_y(length), to, sketch_group@, tag_name(tag), source_range, id),
        ),
        sketch_group@.contiguous() ==> r@.contiguous(),
{
    inner_line(
        Point2d { x: Number::zero(), y: length },
        to,
        sketch_group,
        tag,
        source_range,
        id,
        batch,
    )
}

/// Draw a line on the y-axis.
///
/// Reads the length, the sketch group and the tag from `args`, and draws
/// the line under a fresh id, as [`inner_y_line`] does. `to` is the pen
/// moved by `[0.0, length]`, as the caller has calculated it.
pub fn y_line(args: Args, to: Point2d, batch: &mut CommandBatch) -> (r: Result<MemoryItem, KclError>)
    ensures
        match drawing::<Number>(args.items(), args.source_range) {
            Err(e) => failed(r, final(batch)@, old(batch)@, e),
            Ok(call) => exists|id: u128|
                #[trigger] is_random_uuid(id) && drew(
                    r,
                    final(batch)@,
                    old(batch)@,
                    line_effect(
                        along_y(call.value.number()->Some_0),
                        to,
                        call.sketch_group,
                        call.name,
                        args.source_range,
                        id,
                    ),
                ),
        },
{
    let (length, sketch_group, tag) = match args.get_data_and_sketch_group_and_tag::<Number>() {
        Ok(read) => read,
        Err(e) => {
            return Err(e);
        },
    };
    let id = new_id();
    let new_sketch_group = inner_y_line(length, to, sketch_group, tag, args.source_range, id, batch);
    Ok(MemoryItem::SketchGroup(new_sketch_group))
}

/// Data to draw an angled line.
#[derive(Debug, Clone, Copy, PartialEq)]
pub enum AngledLineData {
    /// An angle and length with explicitly named parameters
    AngleAndLengthNamed {
        /// The angle of the line.
        angle: Number,
        /// The length of the line.
        length: Number,
    },
    /// An angle and length given as a pair
    AngleAndLengthPair([Number; 2]),
}

impl AngledLineData {
    /// The angle, in degrees.
    pub open spec fn spec_angle(&self) -> Number {
        match self {
            AngledLineData::AngleAndLengthNamed { angle, .. } => *angle,
            AngledLineData::AngleAndLengthPair(pair) => pair[0],
        }
    }

    /// The length.
    pub open spec fn spec_length(&self) -> Number {
        match self {
            AngledLineData::AngleAndLengthNamed { length, .. } => *length,
            AngledLineData::AngleAndLengthPair(pair) => pair[1],
        }
    }

    /// The angle (in degrees) and the length, whichever way they were given.
    pub fn angle_and_length(&self) -> (r: (Number, Number))
        ensures
            r == (self.spec_angle(), self.spec_length()),
    {
        match self {
            AngledLineData::AngleAndLengthNamed { angle, length } => (*angle, *length),
            AngledLineData::AngleAndLengthPair(pair) => (pair[0], pair[1]),
        }
    }
}

/// What the caller has calculated for an angled line: the line as an offset
/// from the pen, and the point at which it ends.
#[derive(Debug, Clone, Copy, PartialEq, Eq, Structural)]
pub struct LineGeometry {
    /// The line as an offset from the pen.
    pub delta: Point2d,
    /// The pen moved by `delta`.
    pub to: Point2d,
}

/// Draw an angled line.
///
/// `geometry` holds what the caller has calculated from the angle and the
/// length of the line: the offset `length * (cos, sin)` of the angle, and
/// the pen moved by it. The command carries the offset, as a relative line.
pub fn inner_angled_line(
    geometry: LineGeometry,
    sketch_group: Box<SketchGroup>,
    tag: Option<String>,
    source_range: SourceRange,
    id: u128,
    batch: &mut CommandBatch,
) -> (r: Box<SketchGroup>)
    ensures
        done(
            r@,
            final(batch)@,
            old(batch)@,
            line_effect(geometry.delta, geometry.to, sketch_group@, tag_name(tag), source_range, id),
        ),
        sketch_group@.contiguous() ==> r@.contiguous(),
{
    let from = sketch_group.coords();
    let relative = true;
    let current_path = Path::ToPoint { base: new_base(from, geometry.to, tag, id, source_range) };
    let path = sketch_group.id;
    draw(
        sketch_group,
        current_path,
        ModelingCmd::ExtendPath { path, segment: PathSegment::Line { end: geometry.delta.flat(), relative } },
        batch,
    )
}

/// Draw an angled line of a given x length. `geometry` holds the offset
/// that the caller has calculated from the angle and the length, and the pen
/// moved by it.
pub fn inner_angled_line_of_x_length(
    geometry: LineGeometry,
    sketch_group: Box<SketchGroup>,
    tag: Option<String>,
    source_range: SourceRange,
    id: u128,
    batch: &mut CommandBatch,
) -> (r: Box<SketchGroup>)
    ensures
        done(
            r@,
            final(batch)@,
            old(batch)@,
            line_effect(geometry.delta, geometry.to, sketch_group@, tag_name(tag), source_range, id),
        ),
        sketch_group@.contiguous() ==> r@.contiguous(),
{
    inner_line(geometry.delta, geometry.to, sketch_group, tag, source_range, id, batch)
}

/// Draw an angled line of a given y length. `geometry` holds the offset
/// that the caller has calculated from the angle and the length, and the pen
/// moved by it.
pub fn inner_angled_line_of_y_length(
    geometry: LineGeometry,
    sketch_group: Box<SketchGroup>,
    tag: Option<String>,
    source_range: SourceRange,
    id: u128,
    batch: &mut CommandBatch,
) -> (r: Box<SketchGroup>)
    ensures
        done(
            r@,
            final(batch)@,
            old(batch)@,
            line_effect(geometry.delta, geometry.to, sketch_group@, tag_name(tag), source_range, id),
        ),
        sketch_group@.contiguous() ==> r@.contiguous(),
{
    inner_line(geometry.delta, geometry.to, sketch_group, tag, source_range, id, batch)
}

/// What an angled line reads from its arguments and draws with the
/// calculated `geometry`: a line by the offset of `geometry`, under a fresh
/// id.
pub open spec fn angled_line_drawn(
    r: Result<MemoryItem, KclError>,
    after: Seq<EngineCommand>,
    before: Seq<EngineCommand>,
    items: Seq<MemoryItemView>,
    source_range: SourceRange,
    geometry: LineGeometry,
) -> bool {
    match drawing::<AngledLineData>(items, source_range) {
        Err(e) => failed(r, after, before, e),
        Ok(call) => exists|id: u128|
            #[trigger] is_random_uuid(id) && drew(
                r,
                after,
                before,
                line_effect(
                    geometry.delta,
                    geometry.to,
                    call.sketch_group,
                    call.name,
                    source_range,
                    id,
                ),
            ),
    }
}

/// Draw an angled line.
///
/// Reads the angle and length, the sketch group and the tag from `args`,
/// and draws the line under a fresh id, as [`inner_angled_line`] does, with
/// what the caller has calculated from the angle and the length.
pub fn angled_line(args: Args, geometry: LineGeometry, batch: &mut CommandBatch) -> (r: Result<
    MemoryItem,
    KclError,
>)
    ensures
        angled_line_drawn(r, final(batch)@, old(batch)@, args.items(), args.source_range, geometry),
{
    let (_, sketch_group, tag) = match args.get_data_and_sketch_group_and_tag::<AngledLineData>() {
        Ok(read) => read,
        Err(e) => {
            return Err(e);
        },
    };
    let id = new_id();
    let new_sketch_group = inner_angled_line(geometry, sketch_group, tag, args.source_range, id, batch);
    Ok(MemoryItem::SketchGroup(new_sketch_group))
}

/// Draw an angled line of a given x length.
///
/// Reads the angle and length, the sketch group and the tag from `args`,
/// and draws the line under a fresh id, as
/// [`inner_angled_line_of_x_length`] does.
pub fn angled_line_of_x_length(args: Args, geometry: LineGeometry, batch: &mut CommandBatch) -> (r:
    Result<MemoryItem, KclError>)
    ensures
        angled_line_drawn(r, final(batch)@, old(batch)@, args.items(), args.source_range, geometry),
{
    let (_, sketch_group, tag) = match args.get_data_and_sketch_group_and_tag::<AngledLineData>() {
        Ok(read) => read,
        Err(e) => {
            return Err(e);
        },
    };
    let id = new_id();
    let new_sketch_group = inner_angled_line_of_x_length(
        geometry,
        sketch_group,
        tag,
        args.source_range,
        id,
        batch,
    );
    Ok(MemoryItem::SketchGroup(new_sketch_group))
}

/// Draw an angled line of a given y length.
///
/// Reads the angle and length, the sketch group and the tag from `args`,
/// and draws the line under a fresh id, as
/// [`inner_angled_line_of_y_length`] does.
pub fn angled_line_of_y_length(args: Args, geometry: LineGeometry, batch: &mut CommandBatch) -> (r:
    Result<MemoryItem, KclError>)
    ensures
        angled_line_drawn(r, final(batch)@, old(batch)@, args.items(), args.source_range, geometry),
{
    let (_, sketch_group, tag) = match args.get_data_and_sketch_group_and_tag::<AngledLineData>() {
        Ok(read) => read,
        Err(e) => {
            return Err(e);
        },
    };
    let id = new_id();
    let new_sketch_group = inner_angled_line_of_y_length(
        geometry,
        sketch_group,
        tag,
        args.source_range,
        id,
        batch,
    );
    Ok(MemoryItem::SketchGroup(new_sketch_group))
}

/// Data to draw an angled line to a point.
#[derive(Debug, Clone, Copy, PartialEq, Eq, Structural)]
pub struct AngledLineToData {
    /// The angle of the line.
    pub angle: Number,
    /// The point to draw to.
    pub to: Number,
}

/// Draw an angled line to a given x coordinate. `y_to` is the y coordinate
/// at which a line at the angle of `data` reaches it, as the caller has
/// calculated it.
pub fn inner_angled_line_to_x(
    data: AngledLineToData,
    y_to: Number,
    sketch_group: Box<SketchGroup>,
    tag: Option<String>,
    source_range: SourceRange,
    id: u128,
    batch: &mut CommandBatch,
) -> (r: Box<SketchGroup>)
    ensures
        done(
            r@,
            final(batch)@,
            old(batch)@,
            line_to_effect(
                Point2d { x: data.to, y: y_to },
                sketch_group@,
                tag_name(tag),
                source_range,
                id,
            ),
        ),
        sketch_group@.contiguous() ==> r@.contiguous(),
{
    let AngledLineToData { angle: _, to: x_to } = data;
    inner_line_to(Point2d { x: x_to, y: y_to }, sketch_group, tag, source_range, id, batch)
}

/// Draw an angled line to a given x coordinate.
///
/// Reads the angle and the coordinate, the sketch group and the tag from
/// `args`, and draws the line under a fresh id, as
/// [`inner_angled_line_to_x`] does.
pub fn angled_line_to_x(args: Args, y_to: Number, batch: &mut CommandBatch) -> (r: Result<
    MemoryItem,
    KclError,
>)
    ensures
        match drawing::<AngledLineToData>(args.items(), args.source_range) {
            Err(e) => failed(r, final(batch)@, old(batch)@, e),
            Ok(call) => exists|id: u128|
                #[trigger] is_random_uuid(id) && drew(
                    r,
                    final(batch)@,
                    old(batch)@,
                    line_to_effect(
                        Point2d { x: angled_line_to_of(call.value)->Some_0.to, y: y_to },
                        call.sketch_group,
                        call.name,
                        args.source_range,
                        id,
                    ),
                ),
        },
{
    let (data, sketch_group, tag) = match args.get_data_and_sketch_group_and_tag::<AngledLineToData>() {
        Ok(read) => read,
        Err(e) => {
            return Err(e);
        },
    };
    let id = new_id();
    let new_sketch_group = inner_angled_line_to_x(
        data,
        y_to,
        sketch_group,
        tag,
        args.source_range,
        id,
        batch,
    );
    Ok(MemoryItem::SketchGroup(new_sketch_group))
}

/// Draw an angled line to a given y coordinate. `x_to` is the x coordinate
/// at which a line at the angle of `data` reaches it, as the caller has
/// calculated it.
pub fn inner_angled_line_to_y(
    data: AngledLineToData,
    x_to: Number,
    sketch_group: Box<SketchGroup>,
    tag: Option<String>,
    source_range: SourceRange,
    id: u128,
    batch: &mut CommandBatch,
) -> (r: Box<SketchGroup>)
    ensures
        done(
            r@,
            final(batch)@,
            old(batch)@,
            line_to_effect(
                Point2d { x: x_to, y: data.to },
                sketch_group@,
                tag_name(tag),
                source_range,
                id,
            ),
        ),
        sketch_group@.contiguous() ==> r@.contiguous(),
{
    let AngledLineToData { angle: _, to: y_to } = data;
    inner_line_to(Point2d { x: x_to, y: y_to }, sketch_group, tag, source_range, id, batch)
}

/// Draw an angled line to a given y coordinate.
///
/// Reads the angle and the coordinate, the sketch group and the tag from
/// `args`, and draws the line under a fresh id, as
/// [`inner_angled_line_to_y`] does.
pub fn angled_line_to_y(args: Args, x_to: Number, batch: &mut CommandBatch) -> (r: Result<
    MemoryItem,
    KclError,
>)
    ensures
        match drawing::<AngledLineToData>(args.items(), args.source_range) {
            Err(e) => failed(r, final(batch)@, old(batch)@, e),
            Ok(call) => exists|id: u128|
                #[trigger] is_random_uuid(id) && drew(
                    r,
                    final(batch)@,
                    old(batch)@,
                    line_to_effect(
                        Point2d { x: x_to, y: angled_line_to_of(call.value)->Some_0.to },
                        call.sketch_group,
                        call.name,
                        args.source_range,
                        id,
                    ),
                ),
        },
{
    let (data, sketch_group, tag) = match args.get_data_and_sketch_group_and_tag::<AngledLineToData>() {
        Ok(read) => read,
        Err(e) => {
            return Err(e);
        },
    };
    let id = new_id();
    let new_sketch_group = inner_angled_line_to_y(
        data,
        x_to,
        sketch_group,
        tag,
        args.source_range,
        id,
        batch,
    );
    Ok(MemoryItem::SketchGroup(new_sketch_group))
}

/// Data for drawing an angled line that intersects with a given line.
#[derive(Debug, Clone, PartialEq)]
pub struct AngledLineThatIntersectsData {
    /// The angle of the line.
    pub angle: Number,
    /// The tag of the line to intersect with.
    pub intersect_tag: String,
    /// The offset from the intersecting line.
    pub offset: Option<Number>,
}

/// The error for a tag that names no segment of the sketch.
pub open spec fn no_such_line(tag: Seq<char>, source_range: SourceRange) -> KclErrorView {
    type_error(
        "Expected a line that exists in the given SketchGroup, found `"@ + tag + "`"@,
        source_range,
    )
}

/// The segment that an angled line is to intersect: the first segment of
/// the sketch named by the tag of `data`. Where there is none, this is a
/// `Type` error at `source_range`.
pub fn intersect_path<'a>(
    data: &AngledLineThatIntersectsData,
    sketch_group: &'a SketchGroup,
    source_range: SourceRange,
) -> (r: Result<&'a BasePath, KclError>)
    ensures
        match first_path(sketch_group@.value, path_has_name(data.intersect_tag@)) {
            Some(path) => r is Ok && r->Ok_0@ == path.base(),
            None => r is Err && r->Err_0@ == no_such_line(data.intersect_tag@, source_range),
        },
{
    match sketch_group.get_path_by_name(data.intersect_tag.as_str()) {
        Some(path) => Ok(path.get_base()),
        None => Err(
            KclError::at(
                ErrorKind::Type,
                message_about(
                    "Expected a line that exists in the given SketchGroup, found `",
                    data.intersect_tag.as_str(),
                    "`",
                ),
                source_range,
            ),
        ),
    }
}

/// What a line to `to` that is to intersect the segment named
/// `intersect_tag` comes to: the line, or the error for a sketch without a
/// segment of that name.
pub open spec fn intersecting_line(
    intersect_tag: Seq<char>,
    to: Point2d,
    sketch_group: SketchGroupView,
    name: Seq<char>,
    source_range: SourceRange,
    id: u128,
) -> Result<Effect, KclErrorView> {
    match first_path(sketch_group.value, path_has_name(intersect_tag)) {
        Some(_) => Ok(line_to_effect(to, sketch_group, name, source_range, id)),
        None => Err(no_such_line(intersect_tag, source_range)),
    }
}

/// Draw an angled line that intersects with a given line.
///
/// `to` is the point, calculated by the caller, at which the line at the
/// angle of `data` meets the segment named by its tag, moved sideways by its
/// offset. Where the sketch has no segment of that name, nothing is issued
/// and the result is the error of [`intersect_path`].
pub fn inner_angled_line_that_intersects(
    data: AngledLineThatIntersectsData,
    to: Point2d,
    sketch_group: Box<SketchGroup>,
    tag: Option<String>,
    source_range: SourceRange,
    id: u128,
    batch: &mut CommandBatch,
) -> (r: Result<Box<SketchGroup>, KclError>)
    ensures
        match intersecting_line(
            data.intersect_tag@,
            to,
            sketch_group@,
            tag_name(tag),
            source_range,
            id,
        ) {
            Ok(effect) => {
                &&& r is Ok
                &&& done(r->Ok_0@, final(batch)@, old(batch)@, effect)
                &&& sketch_group@.contiguous() ==> r->Ok_0@.contiguous()
            },
            Err(e) => r is Err && r->Err_0@ == e && final(batch)@ == old(batch)@,
        },
{
    match intersect_path(&data, &sketch_group, source_range) {
        Ok(_) => {},
        Err(e) => {
            return Err(e);
        },
    }
    Ok(inner_line_to(to, sketch_group, tag, source_range, id, batch))
}

/// Draw an angled line that intersects with a given line.
///
/// Reads the data, the sketch group and the tag from `args`, and draws the
/// line under a fresh id, as [`inner_angled_line_that_intersects`] does.
pub fn angled_line_that_intersects(args: Args, to: Point2d, batch: &mut CommandBatch) -> (r: Result<
    MemoryItem,
    KclError,
>)
    ensures
        match drawing::<AngledLineThatIntersectsData>(args.items(), args.source_range) {
            Err(e) => failed(r, final(batch)@, old(batch)@, e),
            Ok(call) => exists|id: u128|
                #[trigger] is_random_uuid(id) && match intersecting_line(
                    call.value.field("intersectTag"@)->Some_0.string()->Some_0,
                    to,
                    call.sketch_group,
                    call.name,
                    args.source_range,
                    id,
                ) {
                    Ok(effect) => drew(r, final(batch)@, old(batch)@, effect),
                    Err(e) => failed(r, final(batch)@, old(batch)@, e),
                },
        },
{
    let (data, sketch_group, tag) = match args.get_data_and_sketch_group_and_tag::<
        AngledLineThatIntersectsData,
    >() {
        Ok(read) => read,
        Err(e) => {
            return Err(e);
        },
    };
    let id = new_id();
    match inner_angled_line_that_intersects(data, to, sketch_group, tag, args.source_range, id, batch) {
        Ok(new_sketch_group) => Ok(MemoryItem::SketchGroup(new_sketch_group)),
        Err(e) => Err(e),
    }
}

/// Data for a plane.
#[derive(Debug, Clone, PartialEq)]
pub enum PlaneData {
    /// The XY plane.
    XY,
    /// The opposite side of the XY plane.
    NegXY,
    /// The XZ plane.
    XZ,
    /// The opposite side of the XZ plane.
    NegXZ,
    /// The YZ plane.
    YZ,
    /// The opposite side of the YZ plane.
    NegYZ,
    /// A defined plane.
    Plane {
        /// Origin of the plane.
        origin: Box<Point3d>,
        /// What should the plane's X axis be?
        x_axis: Box<Point3d>,
        /// What should the plane's Y axis be?
        y_axis: Box<Point3d>,
        /// The z-axis (normal).
        z_axis: Box<Point3d>,
    },
}

/// The point `(x, y, z)` whose coordinates are each `0.0`, `1.0` or `-1.0`,
/// given by their signs.
pub open spec fn unit_point(x: int, y: int, z: int) -> Point3d {
    Point3d { x: unit(x), y: unit(y), z: unit(z) }
}

/// The number `1.0` for a positive sign, `-1.0` for a negative one, and
/// `0.0` for none.
pub open spec fn unit(sign: int) -> Number {
    if sign > 0 {
        Number::one()
    } else if sign < 0 {
        Number::minus_one()
    } else {
        Number::zero()
    }
}

impl PlaneData {
    /// The plane that this data describes, under the id `id`: its kind, its
    /// origin and its axes, without metadata.
    pub open spec fn plane(&self, id: u128) -> PlaneView {
        match self {
            PlaneData::XY => PlaneView {
                id,
                origin: unit_point(0, 0, 0),
                x_axis: unit_point(1, 0, 0),
                y_axis: unit_point(0, 1, 0),
                z_axis: unit_point(0, 0, 1),
                value: PlaneType::XY,
                meta: Seq::empty(),
            },
            PlaneData::NegXY => PlaneView {
                id,
                origin: unit_point(0, 0, 0),
                x_axis: unit_point(1, 0, 0),
                y_axis: unit_point(0, 1, 0),
                z_axis: unit_point(0, 0, -1),
                value: PlaneType::XY,
                meta: Seq::empty(),
            },
            PlaneData::XZ => PlaneView {
                id,
                origin: unit_point(0, 0, 0),
                x_axis: unit_point(1, 0, 0),
                y_axis: unit_point(0, 0, 1),
                z_axis: unit_point(0, 1, 0),
                value: PlaneType::XZ,
                meta: Seq::empty(),
            },
            PlaneData::NegXZ => PlaneView {
                id,
                origin: unit_point(0, 0, 0),
                x_axis: unit_point(1, 0, 0),
                y_axis: unit_point(0, 0, 1),
                z_axis: unit_point(0, -1, 0),
                value: PlaneType::XZ,
                meta: Seq::empty(),
            },
            PlaneData::YZ => PlaneView {
                id,
                origin: unit_point(0, 0, 0),
                x_axis: unit_point(0, 1, 0),
                y_axis: unit_point(0, 0, 1),
                z_axis: unit_point(1, 0, 0),
                value: PlaneType::YZ,
                meta: Seq::empty(),
            },
            PlaneData::NegYZ => PlaneView {
                id,
                origin: unit_point(0, 0, 0),
                x_axis: unit_point(0, 1, 0),
                y_axis: unit_point(0, 0, 1),
                z_axis: unit_point(-1, 0, 0),
                value: PlaneType::YZ,
                meta: Seq::empty(),
            },
            PlaneData::Plane { origin, x_axis, y_axis, z_axis } => PlaneView {
                id,
                origin: **origin,
                x_axis: **x_axis,
                y_axis: **y_axis,
                z_axis: **z_axis,
                value: PlaneType::Custom,
                meta: Seq::empty(),
            },
        }
    }

    /// The id under which the engine provides the plane, where it provides
    /// it: none for a plane given by its origin and axes.
    pub open spec fn default_id(&self, default_planes: DefaultPlanes) -> Option<u128> {
        match self {
            PlaneData::XY => Some(default_planes.xy),
            PlaneData::XZ => Some(default_planes.xz),
            PlaneData::YZ => Some(default_planes.yz),
            PlaneData::NegXY => Some(default_planes.neg_xy),
            PlaneData::NegXZ => Some(default_planes.neg_xz),
            PlaneData::NegYZ => Some(default_planes.neg_yz),
            PlaneData::Plane { .. } => None,
        }
    }
}

impl Plane {
    /// The plane that `value` describes, under the id `id`.
    pub fn with_id(value: PlaneData, id: u128) -> (r: Plane)
        ensures
            r@ == value.plane(id),
    {
        let zero = Number::zero();
        let one = Number::one();
        let minus_one = Number::minus_one();
        match value {
            PlaneData::XY => Plane {
                id,
                origin: Point3d::new(zero, zero, zero),
                x_axis: Point3d::new(one, zero, zero),
                y_axis: Point3d::new(zero, one, zero),
                z_axis: Point3d::new(zero, zero, one),
                value: PlaneType::XY,
                meta: Vec::new(),
            },
            PlaneData::NegXY => Plane {
                id,
                origin: Point3d::new(zero, zero, zero),
                x_axis: Point3d::new(one, zero, zero),
                y_axis: Point3d::new(zero, one, zero),
                z_axis: Point3d::new(zero, zero, minus_one),
                value: PlaneType::XY,
                meta: Vec::new(),
            },
            PlaneData::XZ => Plane {
                id,
                origin: Point3d::new(zero, zero, zero),
                x_axis: Point3d::new(one, zero, zero),
                y_axis: Point3d::new(zero, zero, one),
                z_axis: Point3d::new(zero, one, zero),
                value: PlaneType::XZ,
                meta: Vec::new(),
            },
            PlaneData::NegXZ => Plane {
                id,
                origin: Point3d::new(zero, zero, zero),
                x_axis: Point3d::new(one, zero, zero),
                y_axis: Point3d::new(zero, zero, one),
                z_axis: Point3d::new(zero, minus_one, zero),
                value: PlaneType::XZ,
                meta: Vec::new(),
            },
            PlaneData::YZ => Plane {
                id,
                origin: Point3d::new(zero, zero, zero),
                x_axis: Point3d::new(zero, one, zero),
                y_axis: Point3d::new(zero, zero, one),
                z_axis: Point3d::new(one, zero, zero),
                value: PlaneType::YZ,
                meta: Vec::new(),
            },
            PlaneData::NegYZ => Plane {
                id,
                origin: Point3d::new(zero, zero, zero),
                x_axis: Point3d::new(zero, one, zero),
                y_axis: Point3d::new(zero, zero, one),
                z_axis: Point3d::new(minus_one, zero, zero),
                value: PlaneType::YZ,
                meta: Vec::new(),
            },
            PlaneData::Plane { origin, x_axis, y_axis, z_axis } => Plane {
                id,
                origin: *origin,
                x_axis: *x_axis,
                y_axis: *y_axis,
                z_axis: *z_axis,
                value: PlaneType::Custom,
                meta: Vec::new(),
            },
        }
    }
}

impl From<PlaneData> for Plane {
    /// The plane that `value` describes, under a fresh id.
    fn from(value: PlaneData) -> (r: Self)
        ensures
            is_random_uuid(r.id),
            r@ == value.plane(r.id),
    {
        let id = new_id();
        Plane::with_id(value, id)
    }
}

impl vstd::std_specs::convert::FromSpecImpl<PlaneData> for Plane {
    /// The id is drawn at random, so the data alone does not give the plane.
    open spec fn obeys_from_spec() -> bool {
        false
    }

    open spec fn from_spec(value: PlaneData) -> Self {
        arbitrary()
    }
}

/// The start or the end face of an extrusion.
#[derive(Debug, Clone, Copy, PartialEq, Eq, Structural)]
pub enum StartOrEnd {
    /// The start face as in before you extruded. This could also be known as
    /// the bottom face. But we do not call it bottom because it would be the
    /// top face if you extruded it in the opposite direction or flipped the
    /// camera.
    Start,
    /// The end face after you extruded. This could also be known as the top
    /// face. But we do not call it top because it would be the bottom face
    /// if you extruded it in the opposite direction or flipped the camera.
    End,
}

impl StartOrEnd {
    /// How the face is written: `start` or `end`.
    pub open spec fn text(&self) -> Seq<char> {
        match self {
            StartOrEnd::Start => "start"@,
            StartOrEnd::End => "end"@,
        }
    }

    /// How the face is written: `start` or `end`.
    pub fn to_string(&self) -> (r: String)
        ensures
            r@ == self.text(),
    {
        match self {
            StartOrEnd::Start => String::from_str("start"),
            StartOrEnd::End => String::from_str("end"),
        }
    }

    /// The face that `s` names, where it is exactly `start` or `end`.
    pub fn from_str(s: &str) -> (r: Option<StartOrEnd>)
        ensures
            r == (if s@ == "start"@ {
                Some(StartOrEnd::Start)
            } else if s@ == "end"@ {
                Some(StartOrEnd::End)
            } else {
                None
            }),
    {
        let text = String::from_str(s);
        if text == String::from_str("start") {
            Some(StartOrEnd::Start)
        } else if text == String::from_str("end") {
            Some(StartOrEnd::End)
        } else {
            None
        }
    }
}

/// A tag for sketch on face.
#[derive(Debug, Clone, PartialEq)]
pub enum SketchOnFaceTag {
    StartOrEnd(StartOrEnd),
    /// A string tag for the face you want to sketch on.
    String(String),
}

/// What a [`SketchOnFaceTag`] holds.
pub ghost enum SketchOnFaceTagView {
    StartOrEnd(StartOrEnd),
    String(Seq<char>),
}

impl View for SketchOnFaceTag {
    type V = SketchOnFaceTagView;

    open spec fn view(&self) -> SketchOnFaceTagView {
        match self {
            SketchOnFaceTag::StartOrEnd(face) => SketchOnFaceTagView::StartOrEnd(*face),
            SketchOnFaceTag::String(s) => SketchOnFaceTagView::String(s@),
        }
    }
}

impl SketchOnFaceTagView {
    /// How the tag is written: `start`, `end`, or the string itself.
    pub open spec fn text(&self) -> Seq<char> {
        match self {
            SketchOnFaceTagView::StartOrEnd(face) => face.text(),
            SketchOnFaceTagView::String(s) => *s,
        }
    }
}

impl SketchOnFaceTag {
    /// How the tag is written: `start`, `end`, or the string itself.
    pub fn to_string(&self) -> (r: String)
        ensures
            r@ == self@.text(),
    {
        match self {
            SketchOnFaceTag::StartOrEnd(face) => face.to_string(),
            SketchOnFaceTag::String(s) => s.clone(),
        }
    }

    /// The tag that `s` is: the start or the end face where `s` is exactly
    /// `start` or `end`, and a string tag otherwise. What it gives is
    /// written back as `s`.
    pub fn from_str(s: &str) -> (r: SketchOnFaceTag)
        ensures
            r@.text() == s@,
            r is StartOrEnd <==> s@ == "start"@ || s@ == "end"@,
    {
        match StartOrEnd::from_str(s) {
            Some(face) => SketchOnFaceTag::StartOrEnd(face),
            None => SketchOnFaceTag::String(String::from_str(s)),
        }
    }
}

/// The face of `extrude_group` that `tag` asks for, by the id under which
/// the engine knows it; or why there is no such face to sketch on.
///
/// A string tag asks for the first surface of that name, which must be flat.
/// The tags `start` and `end` ask for the caps of the extrusion.
pub open spec fn face_to_sketch_on(
    extrude_group: ExtrudeGroupView,
    tag: SketchOnFaceTagView,
    source_range: SourceRange,
) -> Result<u128, KclErrorView> {
    match tag {
        SketchOnFaceTagView::String(s) => match first_surface(
            extrude_group.value,
            surface_has_name(s),
        ) {
            Some(ExtrudeSurfaceView::ExtrudePlane(face)) => Ok(face.face_id),
            Some(ExtrudeSurfaceView::ExtrudeArc(_)) => Err(
                type_error("Cannot sketch on a non-planar surface: `"@ + s + "`"@, source_range),
            ),
            None => Err(type_error("Expected a face with the tag `"@ + s + "`"@, source_range)),
        },
        SketchOnFaceTagView::StartOrEnd(StartOrEnd::Start) => match extrude_group.start_cap_id {
            Some(id) => Ok(id),
            None => Err(type_error("Expected a start face to sketch on"@, source_range)),
        },
        SketchOnFaceTagView::StartOrEnd(StartOrEnd::End) => match extrude_group.end_cap_id {
            Some(id) => Ok(id),
            None => Err(type_error("Expected an end face to sketch on"@, source_range)),
        },
    }
}

/// The command that enters sketch mode on the entity `entity_id`.
pub open spec fn enable_sketch_mode(
    id: u128,
    entity_id: u128,
    planar_normal: Option<Point3d>,
) -> EngineCommand {
    EngineCommand {
        id,
        cmd: ModelingCmd::EnableSketchMode {
            animated: false,
            ortho: false,
            entity_id,
            adjust_camera: false,
            planar_normal,
        },
    }
}

/// The face that a sketch on `face_id` of `extrude_group` lies on.
pub open spec fn sketched_face(
    extrude_group: ExtrudeGroupView,
    tag: SketchOnFaceTagView,
    source_range: SourceRange,
    id: u128,
    face_id: u128,
) -> FaceView {
    FaceView {
        id,
        value: tag.text(),
        sketch_group_id: extrude_group.id,
        face_id,
        x_axis: extrude_group.x_axis,
        y_axis: extrude_group.y_axis,
        z_axis: extrude_group.z_axis,
        meta: seq![Metadata { source_range }],
    }
}

fn metadata_of(source_range: SourceRange) -> (r: Vec<Metadata>)
    ensures
        r@ == seq![Metadata { source_range }],
{
    let mut meta: Vec<Metadata> = Vec::new();
    meta.push(Metadata { source_range });
    assert(meta@ =~= seq![Metadata { source_range }]);
    meta
}

/// Start a sketch on a face of an extrusion.
///
/// Finds the face that `tag` asks for, as [`face_to_sketch_on`] says, and
/// enters sketch mode on it with a command under the id `id`, which becomes
/// the id of the face too. Where there is no such face, nothing is issued.
pub fn start_sketch_on_face(
    extrude_group: Box<ExtrudeGroup>,
    tag: SketchOnFaceTag,
    source_range: SourceRange,
    id: u128,
    batch: &mut CommandBatch,
) -> (r: Result<Box<Face>, KclError>)
    ensures
        match face_to_sketch_on(extrude_group@, tag@, source_range) {
            Ok(face_id) => {
                &&& r is Ok
                &&& r->Ok_0@ == sketched_face(extrude_group@, tag@, source_range, id, face_id)
                &&& final(batch)@ == old(batch)@.push(enable_sketch_mode(id, face_id, None))
            },
            Err(e) => {
                &&& r is Err
                &&& r->Err_0@ == e
                &&& final(batch)@ == old(batch)@
            },
        },
{
    let extrude_plane_id = match &tag {
        SketchOnFaceTag::String(s) => match extrude_group.get_path_by_name(s.as_str()) {
            Some(ExtrudeSurface::ExtrudePlane(extrude_plane)) => extrude_plane.face_id,
            Some(ExtrudeSurface::ExtrudeArc(_)) => {
                return Err(
                    KclError::at(
                        ErrorKind::Type,
                        message_about("Cannot sketch on a non-planar surface: `", s.as_str(), "`"),
                        source_range,
                    ),
                );
            },
            None => {
                return Err(
                    KclError::at(
                        ErrorKind::Type,
                        message_about("Expected a face with the tag `", s.as_str(), "`"),
                        source_range,
                    ),
                );
            },
        },
        SketchOnFaceTag::StartOrEnd(StartOrEnd::Start) => match extrude_group.start_cap_id {
            Some(id) => id,
            None => {
                return Err(
                    KclError::at(
                        ErrorKind::Type,
                        String::from_str("Expected a start face to sketch on"),
                        source_range,
                    ),
                );
            },
        },
        SketchOnFaceTag::StartOrEnd(StartOrEnd::End) => match extrude_group.end_cap_id {
            Some(id) => id,
            None => {
                return Err(
                    KclError::at(
                        ErrorKind::Type,
                        String::from_str("Expected an end face to sketch on"),
                        source_range,
                    ),
                );
            },
        },
    };

    // Enter sketch mode on the face.
    batch.send_modeling_cmd(
        id,
        ModelingCmd::EnableSketchMode {
            animated: false,
            ortho: false,
            entity_id: extrude_plane_id,
            adjust_camera: false,
            planar_normal: None,
        },
    );

    Ok(
        Box::new(
            Face {
                id,
                value: tag.to_string(),
                sketch_group_id: extrude_group.id,
                x_axis: extrude_group.x_axis,
                y_axis: extrude_group.y_axis,
                z_axis: extrude_group.z_axis,
                meta: metadata_of(source_range),
                face_id: extrude_plane_id,
            },
        ),
    )
}

/// The bits of `60.0`, the size of a plane that is made on the fly.
pub const PLANE_SIZE_BITS: u64 = 0x404E_0000_0000_0000;

/// The command that makes the plane given by `origin` and two axes.
pub open spec fn make_plane(id: u128, origin: Point3d, x_axis: Point3d, y_axis: Point3d) -> EngineCommand {
    EngineCommand {
        id,
        cmd: ModelingCmd::MakePlane {
            clobber: false,
            origin,
            size: Number::Float(PLANE_SIZE_BITS),
            x_axis,
            y_axis,
            hide: Some(true),
        },
    }
}

/// The id of the plane that `data` describes: the one under which the engine
/// provides it, or `plane_id` for a plane that is made on the fly.
pub open spec fn plane_id_for(data: PlaneData, default_planes: DefaultPlanes, plane_id: u128) -> u128 {
    match data.default_id(default_planes) {
        Some(id) => id,
        None => plane_id,
    }
}

/// The commands that start a sketch on the plane that `data` describes.
pub open spec fn plane_commands(
    data: PlaneData,
    default_planes: DefaultPlanes,
    plane_id: u128,
    id: u128,
) -> Seq<EngineCommand> {
    let enter = enable_sketch_mode(
        id,
        plane_id_for(data, default_planes, plane_id),
        Some(data.plane(plane_id).z_axis),
    );
    match data {
        PlaneData::Plane { origin, x_axis, y_axis, .. } => seq![
            make_plane(plane_id, *origin, *x_axis, *y_axis),
            enter,
        ],
        _ => seq![enter],
    }
}

/// Start a sketch on a plane.
///
/// A plane that the engine provides is taken under the id that
/// `default_planes` gives for it. A plane given by its origin and axes is
/// first made, by a command under the id `plane_id`, which becomes its id.
/// Then sketch mode is entered on the plane, with its normal, by a command
/// under the id `id`.
pub fn start_sketch_on_plane(
    data: PlaneData,
    default_planes: DefaultPlanes,
    plane_id: u128,
    id: u128,
    batch: &mut CommandBatch,
) -> (r: Box<Plane>)
    ensures
        r@ == data.plane(plane_id_for(data, default_planes, plane_id)),
        final(batch)@ == old(batch)@ + plane_commands(data, default_planes, plane_id, id),
{
    let ghost before = batch@;
    let entity_id = match &data {
        PlaneData::XY => default_planes.xy,
        PlaneData::XZ => default_planes.xz,
        PlaneData::YZ => default_planes.yz,
        PlaneData::NegXY => default_planes.neg_xy,
        PlaneData::NegXZ => default_planes.neg_xz,
        PlaneData::NegYZ => default_planes.neg_yz,
        PlaneData::Plane { origin, x_axis, y_axis, z_axis: _ } => {
            // Create the custom plane on the fly.
            batch.send_modeling_cmd(
                plane_id,
                ModelingCmd::MakePlane {
                    clobber: false,
                    origin: **origin,
                    size: Number::Float(PLANE_SIZE_BITS),
                    x_axis: **x_axis,
                    y_axis: **y_axis,
                    hide: Some(true),
                },
            );
            plane_id
        },
    };
    let plane = Plane::with_id(data, entity_id);

    // Enter sketch mode on the plane.
    batch.send_modeling_cmd(
        id,
        ModelingCmd::EnableSketchMode {
            animated: false,
            ortho: false,
            entity_id: plane.id,
            // We pass in the normal for the plane here.
            planar_normal: Some(plane.z_axis),
            adjust_camera: false,
        },
    );
    assert(batch@ =~= before + plane_commands(data, default_planes, plane_id, id));
    Box::new(plane)
}

/// Data for start sketch on.
/// You can start a sketch on a plane or an extrude group.
#[derive(Debug, PartialEq)]
pub enum SketchData {
    Plane(PlaneData),
    ExtrudeGroup(Box<ExtrudeGroup>),
}

/// What a [`SketchData`] holds.
pub ghost enum SketchDataView {
    Plane(PlaneData),
    ExtrudeGroup(ExtrudeGroupView),
}

impl View for SketchData {
    type V = SketchDataView;

    open spec fn view(&self) -> SketchDataView {
        match self {
            SketchData::Plane(plane) => SketchDataView::Plane(*plane),
            SketchData::ExtrudeGroup(extrude_group) => SketchDataView::ExtrudeGroup(extrude_group@),
        }
    }
}

/// What starting a sketch comes to: the surface that the sketch lies on,
/// or why there is none; and the commands that are issued.
pub ghost struct SurfaceEffect {
    pub surface: Result<SketchSurfaceView, KclErrorView>,
    pub commands: Seq<EngineCommand>,
}

/// What starting a sketch on `data` comes to.
///
/// On a plane it gives the plane, with the commands of [`plane_commands`].
/// On an extrusion a tag must say which face is meant; the face is found as
/// [`face_to_sketch_on`] says, and sketch mode is entered on it under the
/// id `id`. Where there is no tag or no such face, nothing is issued.
pub open spec fn surface_to_sketch_on(
    data: SketchDataView,
    tag: Option<SketchOnFaceTagView>,
    default_planes: DefaultPlanes,
    source_range: SourceRange,
    plane_id: u128,
    id: u128,
) -> SurfaceEffect {
    match data {
        SketchDataView::Plane(plane_data) => SurfaceEffect {
            surface: Ok(
                SketchSurfaceView::Plane(
                    plane_data.plane(plane_id_for(plane_data, default_planes, plane_id)),
                ),
            ),
            commands: plane_commands(plane_data, default_planes, plane_id, id),
        },
        SketchDataView::ExtrudeGroup(extrude_group) => match tag {
            None => SurfaceEffect {
                surface: Err(type_error("Expected a tag for the face to sketch on"@, source_range)),
                commands: Seq::empty(),
            },
            Some(tag) => match face_to_sketch_on(extrude_group, tag, source_range) {
                Ok(face_id) => SurfaceEffect {
                    surface: Ok(
                        SketchSurfaceView::Face(
                            sketched_face(extrude_group, tag, source_range, id, face_id),
                        ),
                    ),
                    commands: seq![enable_sketch_mode(id, face_id, None)],
                },
                Err(e) => SurfaceEffect { surface: Err(e), commands: Seq::empty() },
            },
        },
    }
}

/// Start a sketch on a specific plane or face, as [`surface_to_sketch_on`]
/// says.
pub fn inner_start_sketch_on(
    data: SketchData,
    tag: Option<SketchOnFaceTag>,
    default_planes: DefaultPlanes,
    source_range: SourceRange,
    plane_id: u128,
    id: u128,
    batch: &mut CommandBatch,
) -> (r: Result<SketchSurface, KclError>)
    ensures
        ({
            let effect = surface_to_sketch_on(
                data@,
                face_tag_view(tag),
                default_planes,
                source_range,
                plane_id,
                id,
            );
            &&& final(batch)@ == old(batch)@ + effect.commands
            &&& match effect.surface {
                Ok(surface) => r is Ok && r->Ok_0@ == surface,
                Err(e) => r is Err && r->Err_0@ == e,
            }
        }),
{
    let ghost before = batch@;
    match data {
        SketchData::Plane(plane_data) => {
            let plane = start_sketch_on_plane(plane_data, default_planes, plane_id, id, batch);
            Ok(SketchSurface::Plane(plane))
        },
        SketchData::ExtrudeGroup(extrude_group) => {
            let tag = match tag {
                Some(tag) => tag,
                None => {
                    assert(batch@ =~= before + Seq::<EngineCommand>::empty());
                    return Err(
                        KclError::at(
                            ErrorKind::Type,
                            String::from_str("Expected a tag for the face to sketch on"),
                            source_range,
                        ),
                    );
                },
            };
            let ghost found = face_to_sketch_on(extrude_group@, tag@, source_range);
            match start_sketch_on_face(extrude_group, tag, source_range, id, batch) {
                Ok(face) => {
                    assert(batch@ =~= before + seq![enable_sketch_mode(id, found->Ok_0, None)]);
                    Ok(SketchSurface::Face(face))
                },
                Err(e) => {
                    assert(batch@ =~= before + Seq::<EngineCommand>::empty());
                    Err(e)
                },
            }
        },
    }
}

/// The value that a surface to sketch on is.
pub open spec fn surface_item(surface: SketchSurfaceView) -> MemoryItemView {
    match surface {
        SketchSurfaceView::Plane(plane) => MemoryItemView::Plane(plane),
        SketchSurfaceView::Face(face) => MemoryItemView::Face(face),
    }
}

/// Start a sketch on a specific plane or face.
///
/// Reads what to sketch on and the tag of a face from `args`, and starts
/// the sketch under fresh ids, as [`inner_start_sketch_on`] does.
/// `default_planes` holds the ids of the planes that the engine provides.
pub fn start_sketch_on(args: Args, default_planes: DefaultPlanes, batch: &mut CommandBatch) -> (r:
    Result<MemoryItem, KclError>)
    ensures
        match sketch_on(args.items(), args.source_range) {
            Err(e) => failed(r, final(batch)@, old(batch)@, e),
            Ok((data, tag)) => exists|plane_id: u128, id: u128|
                {
                    let effect = surface_to_sketch_on(
                        data,
                        tag,
                        default_planes,
                        args.source_range,
                        plane_id,
                        id,
                    );
                    &&& #[trigger] is_random_uuid(plane_id)
                    &&& #[trigger] is_random_uuid(id)
                    &&& final(batch)@ == old(batch)@ + effect.commands
                    &&& match effect.surface {
                        Ok(surface) => r is Ok && r->Ok_0@ == surface_item(surface),
                        Err(e) => r is Err && r->Err_0@ == e,
                    }
                },
        },
{
    let ghost before = batch@;
    let (data, tag) = match args.get_data_and_optional_tag() {
        Ok(read) => read,
        Err(e) => {
            return Err(e);
        },
    };
    let plane_id = new_id();
    let id = new_id();
    match inner_start_sketch_on(data, tag, default_planes, args.source_range, plane_id, id, batch) {
        Ok(SketchSurface::Plane(plane)) => Ok(MemoryItem::Plane(plane)),
        Ok(SketchSurface::Face(face)) => Ok(MemoryItem::Face(face)),
        Err(e) => Err(e),
    }
}

/// The commands that start a profile: a new path under the id `path_id`,
/// and the pen moved to `to` under the id `id`.
pub open spec fn profile_commands(to: Point2d, id: u128, path_id: u128) -> Seq<EngineCommand> {
    seq![
        EngineCommand { id: path_id, cmd: ModelingCmd::StartPath },
        EngineCommand { id, cmd: ModelingCmd::MovePathPen { path: path_id, to: to.flat() } },
    ]
}

/// The sketch with which a profile starts: no segment yet, the pen at `to`.
pub open spec fn new_profile(
    to: Point2d,
    sketch_surface: SketchSurfaceView,
    name: Seq<char>,
    source_range: SourceRange,
    id: u128,
    path_id: u128,
) -> SketchGroupView {
    SketchGroupView {
        id: path_id,
        on: sketch_surface,
        position: Position::origin(),
        rotation: Rotation::identity(),
        x_axis: sketch_surface.x_axis(),
        y_axis: sketch_surface.y_axis(),
        z_axis: sketch_surface.z_axis(),
        entity_id: Some(sketch_surface.id()),
        value: Seq::empty(),
        start: segment_base(to, to, name, id, source_range),
        meta: seq![Metadata { source_range }],
    }
}

/// The effect of starting a profile at `to`.
pub open spec fn profile_effect(
    to: Point2d,
    sketch_surface: SketchSurfaceView,
    name: Seq<char>,
    source_range: SourceRange,
    id: u128,
    path_id: u128,
) -> Effect {
    Effect {
        sketch_group: new_profile(to, sketch_surface, name, source_range, id, path_id),
        commands: profile_commands(to, id, path_id),
    }
}

/// Start a profile at a given point.
///
/// Opens a path under the id `path_id`, which becomes the id of the sketch,
/// and moves the pen to `to` under the id `id`, which becomes the id of the
/// starting path.
pub fn inner_start_profile_at(
    to: Point2d,
    sketch_surface: SketchSurface,
    tag: Option<String>,
    source_range: SourceRange,
    id: u128,
    path_id: u128,
    batch: &mut CommandBatch,
) -> (r: Box<SketchGroup>)
    ensures
        done(
            r@,
            final(batch)@,
            old(batch)@,
            profile_effect(to, sketch_surface@, tag_name(tag), source_range, id, path_id),
        ),
        r@.contiguous(),
{
    let ghost before = batch@;
    batch.send_modeling_cmd(path_id, ModelingCmd::StartPath);
    batch.send_modeling_cmd(id, ModelingCmd::MovePathPen { path: path_id, to: to.flat() });
    assert(batch@ =~= before + profile_commands(to, id, path_id));

    let current_path = new_base(to, to, tag, id, source_range);
    let x_axis = sketch_surface.x_axis();
    let y_axis = sketch_surface.y_axis();
    let z_axis = sketch_surface.z_axis();
    let entity_id = Some(sketch_surface.id());
    let sketch_group = SketchGroup {
        id: path_id,
        on: sketch_surface,
        position: Position::origin(),
        rotation: Rotation::identity(),
        x_axis,
        y_axis,
        z_axis,
        entity_id,
        value: Vec::new(),
        start: current_path,
        meta: metadata_of(source_range),
    };
    assert(sketch_group@.value =~= Seq::<PathView>::empty());
    Box::new(sketch_group)
}

/// Start a profile at a given point.
///
/// Reads the point, the surface and the tag from `args`, and starts the
/// profile under fresh ids, as [`inner_start_profile_at`] does.
pub fn start_profile_at(args: Args, batch: &mut CommandBatch) -> (r: Result<MemoryItem, KclError>)
    ensures
        match profile(args.items(), args.source_range) {
            Err(e) => failed(r, final(batch)@, old(batch)@, e),
            Ok(call) => exists|id: u128, path_id: u128|
                #[trigger] is_random_uuid(id) && #[trigger] is_random_uuid(path_id) && drew(
                    r,
                    final(batch)@,
                    old(batch)@,
                    profile_effect(call.to, call.surface, call.name, args.source_range, id, path_id),
                ),
        },
{
    let (start, sketch_surface, tag) = match args.get_data_and_sketch_surface() {
        Ok(read) => read,
        Err(e) => {
            return Err(e);
        },
    };
    let id = new_id();
    let path_id = new_id();
    let sketch_group = inner_start_profile_at(
        start,
        sketch_surface,
        tag,
        args.source_range,
        id,
        path_id,
        batch,
    );
    Ok(MemoryItem::SketchGroup(sketch_group))
}

/// The effect of starting a sketch at `data` on the XY plane that the
/// engine provides.
pub open spec fn sketch_at_effect(
    data: Point2d,
    default_planes: DefaultPlanes,
    source_range: SourceRange,
    sketch_mode_id: u128,
    id: u128,
    path_id: u128,
) -> Effect {
    Effect {
        sketch_group: new_profile(
            data,
            SketchSurfaceView::Plane(PlaneData::XY.plane(default_planes.xy)),
            Seq::empty(),
            source_range,
            id,
            path_id,
        ),
        commands: plane_commands(PlaneData::XY, default_planes, 0, sketch_mode_id)
            + profile_commands(data, id, path_id),
    }
}

/// Start a sketch at a given point on the 'XY' plane.
///
/// Enters sketch mode on the XY plane that the engine provides, under the
/// id `sketch_mode_id`, and starts a profile at `data` as
/// [`inner_start_profile_at`] does.
pub fn inner_start_sketch_at(
    data: Point2d,
    default_planes: DefaultPlanes,
    source_range: SourceRange,
    sketch_mode_id: u128,
    id: u128,
    path_id: u128,
    batch: &mut CommandBatch,
) -> (r: Box<SketchGroup>)
    ensures
        done(
            r@,
            final(batch)@,
            old(batch)@,
            sketch_at_effect(data, default_planes, source_range, sketch_mode_id, id, path_id),
        ),
        r@.contiguous(),
{
    // Let's assume it's the XY plane for now, this is just for backwards compatibility.
    let ghost before = batch@;
    let xy_plane = PlaneData::XY;
    let plane = start_sketch_on_plane(xy_plane, default_planes, 0, sketch_mode_id, batch);
    let sketch_group = inner_start_profile_at(
        data,
        SketchSurface::Plane(plane),
        None,
        source_range,
        id,
        path_id,
        batch,
    );
    assert(batch@ =~= before + (plane_commands(PlaneData::XY, default_planes, 0, sketch_mode_id)
        + profile_commands(data, id, path_id)));
    sketch_group
}

/// Start a sketch at a given point.
///
/// Reads the point from `args`, and starts the sketch under fresh ids, as
/// [`inner_start_sketch_at`] does. `default_planes` holds the ids of the
/// planes that the engine provides.
pub fn start_sketch_at(args: Args, default_planes: DefaultPlanes, batch: &mut CommandBatch) -> (r:
    Result<MemoryItem, KclError>)
    ensures
        match data_error::<Point2d>(args.items(), args.source_range) {
            Some(e) => failed(r, final(batch)@, old(batch)@, e),
            None => exists|sketch_mode_id: u128, id: u128, path_id: u128|
                #[trigger] is_random_uuid(sketch_mode_id) && #[trigger] is_random_uuid(id)
                    && #[trigger] is_random_uuid(path_id) && drew(
                    r,
                    final(batch)@,
                    old(batch)@,
                    sketch_at_effect(
                        point_of(data_value(args.items())->Some_0)->Some_0,
                        default_planes,
                        args.source_range,
                        sketch_mode_id,
                        id,
                        path_id,
                    ),
                ),
        },
{
    let data = match args.get_data::<Point2d>() {
        Ok(data) => data,
        Err(e) => {
            return Err(e);
        },
    };
    let sketch_mode_id = new_id();
    let id = new_id();
    let path_id = new_id();
    let sketch_group = inner_start_sketch_at(
        data,
        default_planes,
        args.source_range,
        sketch_mode_id,
        id,
        path_id,
        batch,
    );
    Ok(MemoryItem::SketchGroup(sketch_group))
}

/// The commands that close the path `path_id`: the closing itself under the
/// id `id`, and, for a sketch on a plane, the leaving of sketch mode under
/// the id `disable_id`.
pub open spec fn close_commands(
    sketch_group: SketchGroupView,
    id: u128,
    disable_id: u128,
) -> Seq<EngineCommand> {
    let close = EngineCommand { id, cmd: ModelingCmd::ClosePath { path_id: sketch_group.id } };
    match sketch_group.on {
        SketchSurfaceView::Plane(_) => seq![
            close,
            EngineCommand { id: disable_id, cmd: ModelingCmd::SketchModeDisable },
        ],
        SketchSurfaceView::Face(_) => seq![close],
    }
}

/// The effect of closing a sketch: a segment from the pen back to where the
/// sketch started, and the commands of [`close_commands`].
pub open spec fn close_effect(
    sketch_group: SketchGroupView,
    name: Seq<char>,
    source_range: SourceRange,
    id: u128,
    disable_id: u128,
) -> Effect {
    Effect {
        sketch_group: sketch_group.with_segment(
            segment_to_point(
                sketch_group.coords(),
                sketch_group.start.from,
                name,
                id,
                source_range,
            ),
        ),
        commands: close_commands(sketch_group, id, disable_id),
    }
}

/// Close the current sketch.
///
/// Adds the segment from the pen back to where the sketch started.
pub fn inner_close(
    sketch_group: Box<SketchGroup>,
    tag: Option<String>,
    source_range: SourceRange,
    id: u128,
    disable_id: u128,
    batch: &mut CommandBatch,
) -> (r: Box<SketchGroup>)
    ensures
        done(
            r@,
            final(batch)@,
            old(batch)@,
            close_effect(sketch_group@, tag_name(tag), source_range, id, disable_id),
        ),
        sketch_group@.contiguous() ==> r@.contiguous(),
{
    let ghost before = batch@;
    let from = sketch_group.coords();
    let to = sketch_group.start.from;

    batch.send_modeling_cmd(id, ModelingCmd::ClosePath { path_id: sketch_group.id });

    // If we are sketching on a plane we can close the sketch group now.
    if let SketchSurface::Plane(_) = sketch_group.on {
        // We were on a plane, disable the sketch mode.
        batch.send_modeling_cmd(disable_id, ModelingCmd::SketchModeDisable);
    }
    assert(batch@ =~= before + close_commands(sketch_group@, id, disable_id));

    let current_path = Path::ToPoint { base: new_base(from, to, tag, id, source_range) };
    push_segment(sketch_group, current_path)
}

/// Close the current sketch.
///
/// Reads the sketch group and the tag from `args`, and closes the sketch
/// under fresh ids, as [`inner_close`] does.
pub fn close(args: Args, batch: &mut CommandBatch) -> (r: Result<MemoryItem, KclError>)
    ensures
        match sketch_group_and_tag(args.items(), args.source_range) {
            Err(e) => failed(r, final(batch)@, old(batch)@, e),
            Ok((sketch_group, name)) => exists|id: u128, disable_id: u128|
                #[trigger] is_random_uuid(id) && #[trigger] is_random_uuid(disable_id) && drew(
                    r,
                    final(batch)@,
                    old(batch)@,
                    close_effect(sketch_group, name, args.source_range, id, disable_id),
                ),
        },
{
    let (sketch_group, tag) = match args.get_sketch_group_and_optional_tag() {
        Ok(read) => read,
        Err(e) => {
            return Err(e);
        },
    };
    let id = new_id();
    let disable_id = new_id();
    let new_sketch_group = inner_close(sketch_group, tag, args.source_range, id, disable_id, batch);
    Ok(MemoryItem::SketchGroup(new_sketch_group))
}

/// Data to draw an arc.
#[derive(Debug, Clone, Copy, PartialEq, Eq, Structural)]
pub enum ArcData {
    /// Angles and radius with an optional tag.
    AnglesAndRadius {
        /// The start angle.
        angle_start: Number,
        /// The end angle.
        angle_end: Number,
        /// The radius.
        radius: Number,
    },
    /// Center, to and radius with an optional tag.
    CenterToRadius {
        /// The center.
        center: Point2d,
        /// The to point.
        to: Point2d,
        /// The radius.
        radius: Number,
    },
}

/// What the caller has calculated for an arc.
///
/// For an arc given by its angles and radius, the library reads from this
/// the center and the end point, which follow from the pen, the angles and
/// the radius. For an arc given by its center, end point and radius, it
/// reads the two angles.
#[derive(Debug, Clone, Copy, PartialEq, Eq, Structural)]
pub struct ArcGeometry {
    /// The center of the circle.
    pub center: Point2d,
    /// The point at which the arc ends.
    pub end: Point2d,
    /// The angle at which the arc starts.
    pub angle_start: Angle,
    /// The angle at which the arc ends.
    pub angle_end: Angle,
}

impl ArcData {
    /// The arc segment that the engine draws. What the data gives is taken
    /// from it (angles in degrees), the rest from `geometry`.
    pub open spec fn segment(&self, geometry: ArcGeometry) -> PathSegment {
        match self {
            ArcData::AnglesAndRadius { angle_start, angle_end, radius } => PathSegment::Arc {
                start: Angle::from_degrees(*angle_start),
                end: Angle::from_degrees(*angle_end),
                center: geometry.center,
                radius: *radius,
                relative: false,
            },
            ArcData::CenterToRadius { center, to, radius } => PathSegment::Arc {
                start: geometry.angle_start,
                end: geometry.angle_end,
                center: *center,
                radius: *radius,
                relative: false,
            },
        }
    }

    /// The point at which the arc ends.
    pub open spec fn end(&self, geometry: ArcGeometry) -> Point2d {
        match self {
            ArcData::AnglesAndRadius { .. } => geometry.end,
            ArcData::CenterToRadius { to, .. } => *to,
        }
    }
}

/// The effect of an arc: a segment from the pen to the end of the arc.
pub open spec fn arc_effect(
    data: ArcData,
    geometry: ArcGeometry,
    sketch_group: SketchGroupView,
    name: Seq<char>,
    source_range: SourceRange,
    id: u128,
) -> Effect {
    draws(
        sketch_group,
        segment_to_point(sketch_group.coords(), data.end(geometry), name, id, source_range),
        ModelingCmd::ExtendPath { path: sketch_group.id, segment: data.segment(geometry) },
    )
}

/// Draw an arc.
///
/// Issues the arc under the id `id`, and adds to the sketch a segment from
/// the pen to the end of the arc.
pub fn inner_arc(
    data: ArcData,
    geometry: ArcGeometry,
    sketch_group: Box<SketchGroup>,
    tag: Option<String>,
    source_range: SourceRange,
    id: u128,
    batch: &mut CommandBatch,
) -> (r: Box<SketchGroup>)
    ensures
        done(
            r@,
            final(batch)@,
            old(batch)@,
            arc_effect(data, geometry, sketch_group@, tag_name(tag), source_range, id),
        ),
        sketch_group@.contiguous() ==> r@.contiguous(),
{
    let from: Point2d = sketch_group.coords();

    let (center, angle_start, angle_end, radius, end) = match &data {
        ArcData::AnglesAndRadius { angle_start, angle_end, radius } => {
            let a_start = Angle::from_degrees(*angle_start);
            let a_end = Angle::from_degrees(*angle_end);
            (geometry.center, a_start, a_end, *radius, geometry.end)
        },
        ArcData::CenterToRadius { center, to, radius } => {
            (*center, geometry.angle_start, geometry.angle_end, *radius, *to)
        },
    };

    let current_path = Path::ToPoint { base: new_base(from, end, tag, id, source_range) };
    let path = sketch_group.id;
    draw(
        sketch_group,
        current_path,
        ModelingCmd::ExtendPath {
            path,
            segment: PathSegment::Arc {
                start: angle_start,
                end: angle_end,
                center,
                radius,
                relative: false,
            },
        },
        batch,
    )
}

/// Draw an arc.
///
/// Reads the data, the sketch group and the tag from `args`, and draws the
/// arc under a fresh id, as [`inner_arc`] does, with what the caller has
/// calculated.
pub fn arc(args: Args, geometry: ArcGeometry, batch: &mut CommandBatch) -> (r: Result<
    MemoryItem,
    KclError,
>)
    ensures
        match drawing::<ArcData>(args.items(), args.source_range) {
            Err(e) => failed(r, final(batch)@, old(batch)@, e),
            Ok(call) => exists|id: u128|
                #[trigger] is_random_uuid(id) && drew(
                    r,
                    final(batch)@,
                    old(batch)@,
                    arc_effect(
                        arc_of(call.value)->Some_0,
                        geometry,
                        call.sketch_group,
                        call.name,
                        args.source_range,
                        id,
                    ),
                ),
        },
{
    let (data, sketch_group, tag) = match args.get_data_and_sketch_group_and_tag::<ArcData>() {
        Ok(read) => read,
        Err(e) => {
            return Err(e);
        },
    };
    let id = new_id();
    let new_sketch_group = inner_arc(data, geometry, sketch_group, tag, args.source_range, id, batch);
    Ok(MemoryItem::SketchGroup(new_sketch_group))
}

/// Data to draw a tangential arc.
#[derive(Debug, Clone, Copy, PartialEq, Eq, Structural)]
pub enum TangentialArcData {
    RadiusAndOffset {
        /// Radius of the arc.
        /// Not to be confused with Raiders of the Lost Ark.
        radius: Number,
        /// Offset of the arc, in degrees.
        offset: Number,
    },
    /// A point where the arc should end. Must lie in the same plane as the
    /// current path pen position. Must not be colinear with current path pen
    /// position.
    Point(Point2d),
}

/// The command that draws a tangential arc to the point `to`.
pub open spec fn spec_tan_arc_to(path: u128, to: Point2d) -> ModelingCmd {
    ModelingCmd::ExtendPath {
        path,
        segment: PathSegment::TangentialArcTo { angle_snap_increment: None, to: to.flat() },
    }
}

/// The command that draws a tangential arc from the pen of `sketch_group`
/// to the point `to`.
pub fn tan_arc_to(sketch_group: &SketchGroup, to: &Point2d) -> (r: ModelingCmd)
    ensures
        r == spec_tan_arc_to(sketch_group.id, *to),
{
    ModelingCmd::ExtendPath {
        path: sketch_group.id,
        segment: PathSegment::TangentialArcTo { angle_snap_increment: None, to: to.flat() },
    }
}

impl TangentialArcData {
    /// The command that draws the arc on the path `path`.
    pub open spec fn command(&self, path: u128) -> ModelingCmd {
        match self {
            TangentialArcData::RadiusAndOffset { radius, offset } => ModelingCmd::ExtendPath {
                path,
                segment: PathSegment::TangentialArc {
                    radius: *radius,
                    offset: Angle { unit: UnitAngle::Degrees, value: *offset },
                },
            },
            TangentialArcData::Point(to) => spec_tan_arc_to(path, *to),
        }
    }
}

/// A segment that is a tangential arc.
pub open spec fn segment_tangential_arc(
    from: Point2d,
    to: Point2d,
    name: Seq<char>,
    id: u128,
    source_range: SourceRange,
) -> PathView {
    PathView::TangentialArc { base: segment_base(from, to, name, id, source_range) }
}

/// The effect of a tangential arc that ends at `to`.
pub open spec fn tangential_arc_effect(
    data: TangentialArcData,
    to: Point2d,
    sketch_group: SketchGroupView,
    name: Seq<char>,
    source_range: SourceRange,
    id: u128,
) -> Effect {
    draws(
        sketch_group,
        segment_tangential_arc(sketch_group.coords(), to, name, id, source_range),
        data.command(sketch_group.id),
    )
}

/// Draw a tangential arc.
///
/// `to` is the point at which the arc ends, as the caller has calculated
/// it: the pen moved by the point of `data`, or by the end of the arc that
/// its radius and offset give.
pub fn inner_tangential_arc(
    data: TangentialArcData,
    to: Point2d,
    sketch_group: Box<SketchGroup>,
    tag: Option<String>,
    source_range: SourceRange,
    id: u128,
    batch: &mut CommandBatch,
) -> (r: Box<SketchGroup>)
    ensures
        done(
            r@,
            final(batch)@,
            old(batch)@,
            tangential_arc_effect(data, to, sketch_group@, tag_name(tag), source_range, id),
        ),
        sketch_group@.contiguous() ==> r@.contiguous(),
{
    let from: Point2d = sketch_group.coords();

    let cmd = match &data {
        TangentialArcData::RadiusAndOffset { radius, offset } => ModelingCmd::ExtendPath {
            path: sketch_group.id,
            segment: PathSegment::TangentialArc {
                radius: *radius,
                offset: Angle { unit: UnitAngle::Degrees, value: *offset },
            },
        },
        TangentialArcData::Point(to) => tan_arc_to(&sketch_group, to),
    };

    let current_path = Path::TangentialArc { base: new_base(from, to, tag, id, source_range) };
    draw(sketch_group, current_path, cmd, batch)
}

/// Draw a tangential arc.
///
/// Reads the data, the sketch group and the tag from `args`, and draws the
/// arc under a fresh id, as [`inner_tangential_arc`] does.
pub fn tangential_arc(args: Args, to: Point2d, batch: &mut CommandBatch) -> (r: Result<
    MemoryItem,
    KclError,
>)
    ensures
        match drawing::<TangentialArcData>(args.items(), args.source_range) {
            Err(e) => failed(r, final(batch)@, old(batch)@, e),
            Ok(call) => exists|id: u128|
                #[trigger] is_random_uuid(id) && drew(
                    r,
                    final(batch)@,
                    old(batch)@,
                    tangential_arc_effect(
                        tangential_arc_of(call.value)->Some_0,
                        to,
                        call.sketch_group,
                        call.name,
                        args.source_range,
                        id,
                    ),
                ),
        },
{
    let (data, sketch_group, tag) = match args.get_data_and_sketch_group_and_tag::<
        TangentialArcData,
    >() {
        Ok(read) => read,
        Err(e) => {
            return Err(e);
        },
    };
    let id = new_id();
    let new_sketch_group = inner_tangential_arc(
        data,
        to,
        sketch_group,
        tag,
        args.source_range,
        id,
        batch,
    );
    Ok(MemoryItem::SketchGroup(new_sketch_group))
}

/// What the caller has calculated for a tangential arc to a point.
#[derive(Debug, Clone, Copy, PartialEq, Eq, Structural)]
pub struct TangentialArcToGeometry {
    /// The end of the arc as an offset from the pen.
    pub delta: Point2d,
    /// The center of the arc.
    pub center: Point2d,
    /// The direction of the arc: positive where it runs counter-clockwise.
    pub ccw: i32,
}

/// The effect of a tangential arc to the point `to`.
pub open spec fn tangential_arc_to_effect(
    to: Point2d,
    geometry: TangentialArcToGeometry,
    sketch_group: SketchGroupView,
    name: Seq<char>,
    source_range: SourceRange,
    id: u128,
) -> Effect {
    draws(
        sketch_group,
        PathView::TangentialArcTo {
            base: segment_base(sketch_group.coords(), to, name, id, source_range),
            center: geometry.center,
            ccw: geometry.ccw > 0,
        },
        spec_tan_arc_to(sketch_group.id, geometry.delta),
    )
}

/// Draw a tangential arc to a specific point.
///
/// `geometry` holds what the caller has calculated from the pen, the
/// tangent reference of the sketch (see
/// [`SketchGroup::get_tangential_info_from_paths`]) and `to`. The command
/// carries the end of the arc as an offset from the pen; the new segment
/// records the center of the arc and whether it runs counter-clockwise.
pub fn inner_tangential_arc_to(
    to: Point2d,
    geometry: TangentialArcToGeometry,
    sketch_group: Box<SketchGroup>,
    tag: Option<String>,
    source_range: SourceRange,
    id: u128,
    batch: &mut CommandBatch,
) -> (r: Box<SketchGroup>)
    ensures
        done(
            r@,
            final(batch)@,
            old(batch)@,
            tangential_arc_to_effect(to, geometry, sketch_group@, tag_name(tag), source_range, id),
        ),
        sketch_group@.contiguous() ==> r@.contiguous(),
{
    let from: Point2d = sketch_group.coords();
    let cmd = tan_arc_to(&sketch_group, &geometry.delta);

    let current_path = Path::TangentialArcTo {
        base: new_base(from, to, tag, id, source_range),
        center: geometry.center,
        ccw: geometry.ccw > 0,
    };
    draw(sketch_group, current_path, cmd, batch)
}

/// Data to draw a bezier curve.
#[derive(Debug, Clone, Copy, PartialEq, Eq, Structural)]
pub struct BezierData {
    /// The to point.
    pub to: Point2d,
    /// The first control point.
    pub control1: Point2d,
    /// The second control point.
    pub control2: Point2d,
}

impl BezierData {
    /// The curve that the engine draws: control points and end point as
    /// offsets from the pen.
    pub open spec fn segment(&self) -> PathSegment {
        PathSegment::Bezier {
            control_1: self.control1.flat(),
            control_2: self.control2.flat(),
            end: self.to.flat(),
            relative: true,
        }
    }
}

/// The effect of a bezier curve that ends at `to`.
pub open spec fn bezier_effect(
    data: BezierData,
    to: Point2d,
    sketch_group: SketchGroupView,
    name: Seq<char>,
    source_range: SourceRange,
    id: u128,
) -> Effect {
    draws(
        sketch_group,
        segment_to_point(sketch_group.coords(), to, name, id, source_range),
        ModelingCmd::ExtendPath { path: sketch_group.id, segment: data.segment() },
    )
}

/// Draw a bezier curve.
///
/// `to` is the point at which the curve ends, as the caller has calculated
/// it: the pen moved by the end point of `data`.
pub fn inner_bezier_curve(
    data: BezierData,
    to: Point2d,
    sketch_group: Box<SketchGroup>,
    tag: Option<String>,
    source_range: SourceRange,
    id: u128,
    batch: &mut CommandBatch,
) -> (r: Box<SketchGroup>)
    ensures
        done(
            r@,
            final(batch)@,
            old(batch)@,
            bezier_effect(data, to, sketch_group@, tag_name(tag), source_range, id),
        ),
        sketch_group@.contiguous() ==> r@.contiguous(),
{
    let from = sketch_group.coords();

    let relative = true;
    let delta = data.to;

    let current_path = Path::ToPoint { base: new_base(from, to, tag, id, source_range) };
    let path = sketch_group.id;
    draw(
        sketch_group,
        current_path,
        ModelingCmd::ExtendPath {
            path,
            segment: PathSegment::Bezier {
                control_1: data.control1.flat(),
                control_2: data.control2.flat(),
                end: delta.flat(),
                relative,
            },
        },
        batch,
    )
}

/// Draw a bezier curve.
///
/// Reads the data, the sketch group and the tag from `args`, and draws the
/// curve under a fresh id, as [`inner_bezier_curve`] does.
pub fn bezier_curve(args: Args, to: Point2d, batch: &mut CommandBatch) -> (r: Result<
    MemoryItem,
    KclError,
>)
    ensures
        match drawing::<BezierData>(args.items(), args.source_range) {
            Err(e) => failed(r, final(batch)@, old(batch)@, e),
            Ok(call) => exists|id: u128|
                #[trigger] is_random_uuid(id) && drew(
                    r,
                    final(batch)@,
                    old(batch)@,
                    bezier_effect(
                        bezier_of(call.value)->Some_0,
                        to,
                        call.sketch_group,
                        call.name,
                        args.source_range,
                        id,
                    ),
                ),
        },
{
    let (data, sketch_group, tag) = match args.get_data_and_sketch_group_and_tag::<BezierData>() {
        Ok(read) => read,
        Err(e) => {
            return Err(e);
        },
    };
    let id = new_id();
    let new_sketch_group = inner_bezier_curve(data, to, sketch_group, tag, args.source_range, id, batch);
    Ok(MemoryItem::SketchGroup(new_sketch_group))
}

/// The two commands that cut one hole: the hole is added to the solid, and
/// the sketch that gave the hole its shape is hidden.
pub open spec fn hole_commands(
    object_id: u128,
    hole_id: u128,
    add_id: u128,
    hide_id: u128,
) -> Seq<EngineCommand> {
    seq![
        EngineCommand { id: add_id, cmd: ModelingCmd::Solid2DAddHole { object_id, hole_id } },
        EngineCommand {
            id: hide_id,
            cmd: ModelingCmd::ObjectVisible { object_id: hole_id, hidden: true },
        },
    ]
}

/// The commands that cut the holes `holes`, in order, the hole at each
/// position under the pair of ids at the same position of `ids`.
pub open spec fn holes_commands(
    object_id: u128,
    holes: Seq<u128>,
    ids: Seq<(u128, u128)>,
) -> Seq<EngineCommand>
    decreases holes.len(),
{
    if holes.len() == 0 {
        Seq::empty()
    } else {
        holes_commands(object_id, holes.drop_last(), ids.drop_last()) + hole_commands(
            object_id,
            holes.last(),
            ids.last().0,
            ids.last().1,
        )
    }
}

/// The ids of the sketches `groups`, in order.
pub open spec fn hole_ids(groups: Seq<SketchGroupView>) -> Seq<u128> {
    Seq::new(groups.len(), |i: int| groups[i].id)
}

/// Whether the holes `groups` have been cut out of `object_id`, each under a
/// pair of fresh ids.
pub open spec fn holes_cut(
    after: Seq<EngineCommand>,
    before: Seq<EngineCommand>,
    object_id: u128,
    groups: Seq<SketchGroupView>,
) -> bool {
    exists|ids: Seq<(u128, u128)>|
        {
            &&& ids.len() == groups.len()
            &&& forall|i: int|
                0 <= i < ids.len() ==> is_random_uuid((#[trigger] ids[i]).0) && is_random_uuid(
                    ids[i].1,
                )
            &&& after == before + #[trigger] holes_commands(object_id, hole_ids(groups), ids)
        }
}

/// Cuts the sketch `hole_id` out of the solid `object_id`, and hides it.
pub fn cut_hole(object_id: u128, hole_id: u128, add_id: u128, hide_id: u128, batch: &mut CommandBatch)
    ensures
        final(batch)@ == old(batch)@ + hole_commands(object_id, hole_id, add_id, hide_id),
{
    let ghost before = batch@;
    batch.send_modeling_cmd(add_id, ModelingCmd::Solid2DAddHole { object_id, hole_id });
    // we also hide the source hole since its essentially "consumed" by this operation
    batch.send_modeling_cmd(hide_id, ModelingCmd::ObjectVisible { object_id: hole_id, hidden: true });
    assert(batch@ =~= before + hole_commands(object_id, hole_id, add_id, hide_id));
}

/// Use a sketch to cut a hole in another sketch.
///
/// Each sketch of `hole_sketch_group` is cut out of `sketch_group`, in
/// order, by the two commands of [`hole_commands`], each under a fresh id.
/// The sketch itself comes back as it was.
pub fn inner_hole(
    hole_sketch_group: SketchGroupSet,
    sketch_group: Box<SketchGroup>,
    batch: &mut CommandBatch,
) -> (r: Box<SketchGroup>)
    ensures
        r == sketch_group,
        holes_cut(final(batch)@, old(batch)@, sketch_group.id, hole_sketch_group@),
{
    let ghost before = batch@;
    let ghost holes = hole_ids(hole_sketch_group@);
    match &hole_sketch_group {
        SketchGroupSet::SketchGroup(hole_sketch_group) => {
            let add_id = new_id();
            let hide_id = new_id();
            cut_hole(sketch_group.id, hole_sketch_group.id, add_id, hide_id, batch);
            proof {
                let ids = seq![(add_id, hide_id)];
                assert(holes.drop_last() =~= Seq::<u128>::empty());
                assert(holes_commands(sketch_group.id, holes.drop_last(), ids.drop_last())
                    =~= Seq::<EngineCommand>::empty());
                assert(batch@ =~= before + holes_commands(sketch_group.id, holes, ids));
            }
        },
        SketchGroupSet::SketchGroups(hole_sketch_groups) => {
            let ghost mut ids: Seq<(u128, u128)> = Seq::empty();
            let mut i: usize = 0;
            while i < hole_sketch_groups.len()
                invariant
                    i <= hole_sketch_groups.len(),
                    holes.len() == hole_sketch_groups@.len(),
                    forall|k: int|
                        0 <= k < holes.len() ==> #[trigger] holes[k] == hole_sketch_groups@[k].id,
                    ids.len() == i,
                    forall|k: int|
                        0 <= k < ids.len() ==> is_random_uuid((#[trigger] ids[k]).0)
                            && is_random_uuid(ids[k].1),
                    batch@ == before + holes_commands(sketch_group.id, holes.take(i as int), ids),
                decreases hole_sketch_groups.len() - i,
            {
                let add_id = new_id();
                let hide_id = new_id();
                let ghost sent = batch@;
                cut_hole(sketch_group.id, hole_sketch_groups[i].id, add_id, hide_id, batch);
                proof {
                    let next = ids.push((add_id, hide_id));
                    let taken = holes.take(i as int + 1);
                    assert(taken.drop_last() =~= holes.take(i as int));
                    assert(next.drop_last() =~= ids);
                    assert(taken.last() == holes[i as int]);
                    assert(batch@ =~= before + holes_commands(sketch_group.id, taken, next));
                    ids = next;
                }
                i = i + 1;
            }
            proof {
                assert(holes.take(i as int) =~= holes);
            }
        },
    }
    sketch_group
}

/// Use a sketch to cut a hole in another sketch.
///
/// Reads the sketches that give the holes their shape, and the sketch to
/// cut them out of, from `args`, and cuts the holes as [`inner_hole`] does.
pub fn hole(args: Args, batch: &mut CommandBatch) -> (r: Result<MemoryItem, KclError>)
    ensures
        match holes(args.items(), args.source_range) {
            Err(e) => failed(r, final(batch)@, old(batch)@, e),
            Ok((groups, sketch_group)) => {
                &&& r is Ok
                &&& r->Ok_0@ == MemoryItemView::SketchGroup(sketch_group)
                &&& holes_cut(final(batch)@, old(batch)@, sketch_group.id, groups)
            },
        },
{
    let (hole_sketch_group, sketch_group) = match args.get_sketch_groups() {
        Ok(read) => read,
        Err(e) => {
            return Err(e);
        },
    };
    let new_sketch_group = inner_hole(hole_sketch_group, sketch_group, batch);
    Ok(MemoryItem::SketchGroup(new_sketch_group))
}

/// The error for a call with too few arguments.
pub open spec fn spec_too_few_args(source_range: SourceRange) -> KclErrorView {
    KclErrorView {
        kind: ErrorKind::Type,
        message: "too few arguments"@,
        source_ranges: seq![source_range],
    }
}

/// The error for a call with too few arguments.
pub fn too_few_args(source_range: SourceRange) -> (r: KclError)
    ensures
        r@ == spec_too_few_args(source_range),
{
    KclError::at(ErrorKind::Type, String::from_str("too few arguments"), source_range)
}

/// The next argument that `it` yields, or the error for too few arguments
/// where it has come to its end.
pub fn get_arg<I: Iterator>(it: &mut I, src: SourceRange) -> (r: Result<I::Item, KclError>)
    ensures
        <I as IteratorSpec>::obeys_prophetic_iter_laws(old(it)) ==> (if <I as IteratorSpec>::remaining(
            old(it),
        ).len() > 0 {
            &&& r is Ok
            &&& r->Ok_0 == <I as IteratorSpec>::remaining(old(it))[0]
            &&& <I as IteratorSpec>::remaining(final(it)) == <I as IteratorSpec>::remaining(
                old(it),
            ).drop_first()
        } else {
            &&& r is Err
            &&& r->Err_0@ == spec_too_few_args(src)
        }),
{
    match it.next() {
        Some(item) => Ok(item),
        None => Err(too_few_args(src)),
    }
}

/// What a tangential arc to a point reads from its arguments, one after
/// the other: the point, then the sketch group, then a tag, which may be
/// left out. A list that ends before the sketch group has too few
/// arguments.
pub open spec fn arc_to_call(items: Seq<MemoryItemView>, source_range: SourceRange) -> Result<
    Drawing,
    KclErrorView,
> {
    if items.len() < 1 {
        Err(spec_too_few_args(source_range))
    } else {
        match item_data_error::<Point2d>(items[0], source_range) {
            Some(e) => Err(e),
            None => if items.len() < 2 {
                Err(spec_too_few_args(source_range))
            } else {
                match items[1] {
                    MemoryItemView::SketchGroup(sketch_group) => match tag_at(items, 2) {
                        None => Err(bad_tag(source_range)),
                        Some(tag) => Ok(
                            Drawing {
                                value: items[0]->UserVal_value,
                                sketch_group,
                                name: name_of(tag),
                            },
                        ),
                    },
                    _ => Err(no_sketch_group(source_range)),
                }
            },
        }
    }
}

/// Draw a tangential arc to a specific point.
///
/// Reads the point, the sketch group and the tag from `args`, and draws
/// the arc under a fresh id, as [`inner_tangential_arc_to`] does, with what
/// the caller has calculated.
pub fn tangential_arc_to(args: Args, geometry: TangentialArcToGeometry, batch: &mut CommandBatch) -> (r:
    Result<MemoryItem, KclError>)
    ensures
        match arc_to_call(args.items(), args.source_range) {
            Err(e) => failed(r, final(batch)@, old(batch)@, e),
            Ok(call) => exists|id: u128|
                #[trigger] is_random_uuid(id) && drew(
                    r,
                    final(batch)@,
                    old(batch)@,
                    tangential_arc_to_effect(
                        point_of(call.value)->Some_0,
                        geometry,
                        call.sketch_group,
                        call.name,
                        args.source_range,
                        id,
                    ),
                ),
        },
{
    let src = args.source_range;

    // Get arguments to function call
    let mut it = args.args.as_slice().iter();
    let ghost items = args.items();
    let first = match get_arg(&mut it, src) {
        Ok(item) => item,
        Err(e) => {
            return Err(e);
        },
    };
    assert(items[0] == first@);
    let to: Point2d = match item_data::<Point2d>(first, src) {
        Ok(to) => to,
        Err(e) => {
            return Err(e);
        },
    };
    let second = match get_arg(&mut it, src) {
        Ok(item) => item,
        Err(e) => {
            return Err(e);
        },
    };
    assert(items[1] == second@);
    let sketch_group: Box<SketchGroup> = match item_sketch_group(second, src) {
        Ok(sketch_group) => sketch_group,
        Err(e) => {
            return Err(e);
        },
    };
    let tag = if let Ok(memory_item) = get_arg(&mut it, src) {
        assert(items[2] == memory_item@);
        match item_tag(memory_item, src) {
            Ok(tag) => tag,
            Err(e) => {
                return Err(e);
            },
        }
    } else {
        None
    };

    let id = new_id();
    let new_sketch_group = inner_tangential_arc_to(to, geometry, sketch_group, tag, src, id, batch);
    Ok(MemoryItem::SketchGroup(new_sketch_group))
}

/// Every operation that draws keeps a contiguous sketch contiguous: the
/// segment that it adds starts at the pen.
pub proof fn lemma_drawing_keeps_contiguity(
    sketch_group: SketchGroupView,
    name: Seq<char>,
    source_range: SourceRange,
    id: u128,
    disable_id: u128,
    to: Point2d,
    delta: Point2d,
    arc: ArcData,
    arc_geometry: ArcGeometry,
    tangential_arc: TangentialArcData,
    tangential_arc_to: TangentialArcToGeometry,
    bezier: BezierData,
)
    requires
        sketch_group.contiguous(),
    ensures
        line_to_effect(to, sketch_group, name, source_range, id).sketch_group.contiguous(),
        line_effect(delta, to, sketch_group, name, source_range, id).sketch_group.contiguous(),
        arc_effect(arc, arc_geometry, sketch_group, name, source_range, id).sketch_group.contiguous(),
        tangential_arc_effect(
            tangential_arc,
            to,
            sketch_group,
            name,
            source_range,
            id,
        ).sketch_group.contiguous(),
        tangential_arc_to_effect(
            to,
            tangential_arc_to,
            sketch_group,
            name,
            source_range,
            id,
        ).sketch_group.contiguous(),
        bezier_effect(bezier, to, sketch_group, name, source_range, id).sketch_group.contiguous(),
        close_effect(sketch_group, name, source_range, id, disable_id).sketch_group.contiguous(),
        close_effect(sketch_group, name, source_range, id, disable_id).sketch_group.coords()
            == sketch_group.start.to,
{
    let pen = sketch_group.coords();
    lemma_with_segment_contiguous(sketch_group, segment_to_point(pen, to, name, id, source_range));
    lemma_with_segment_contiguous(
        sketch_group,
        segment_to_point(pen, arc.end(arc_geometry), name, id, source_range),
    );
    lemma_with_segment_contiguous(
        sketch_group,
        segment_tangential_arc(pen, to, name, id, source_range),
    );
    lemma_with_segment_contiguous(
        sketch_group,
        PathView::TangentialArcTo {
            base: segment_base(pen, to, name, id, source_range),
            center: tangential_arc_to.center,
            ccw: tangential_arc_to.ccw > 0,
        },
    );
    lemma_with_segment_contiguous(
        sketch_group,
        segment_to_point(pen, sketch_group.start.from, name, id, source_range),
    );
}

/// A sketch starts out contiguous, with the pen at the starting point.
pub proof fn lemma_profile_is_contiguous(
    to: Point2d,
    sketch_surface: SketchSurfaceView,
    name: Seq<char>,
    source_range: SourceRange,
    id: u128,
    path_id: u128,
)
    ensures
        new_profile(to, sketch_surface, name, source_range, id, path_id).contiguous(),
        new_profile(to, sketch_surface, name, source_range, id, path_id).coords() == to,
{
}

/// The id of every command that draws a segment is the id of the segment.
pub proof fn lemma_command_has_the_id_of_its_segment(
    sketch_group: SketchGroupView,
    segment: PathView,
    cmd: ModelingCmd,
)
    ensures
        draws(sketch_group, segment, cmd).commands.len() == 1,
        draws(sketch_group, segment, cmd).commands[0].id == draws(
            sketch_group,
            segment,
            cmd,
        ).sketch_group.value.last().base().geo_meta.id,
{
}

} // verus!
