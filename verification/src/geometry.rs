//! The geometric values: points, path segments, surfaces, sketch groups and
//! extrude groups.
//!
//! Every segment and surface carries the identity under which the geometry
//! engine knows it (the 128 bits of a UUID), a name (its tag, empty when it
//! has none) and the source range of the call that made it.

use vstd::prelude::*;
use crate::errors::KclError;
use crate::number::Number;
use crate::source::{Metadata, SourceRange};

verus! {

/// A position in space.
#[derive(Debug, Clone, Copy, PartialEq)]
pub struct Position(pub [Number; 3]);

/// A rotation, as a quaternion.
#[derive(Debug, Clone, Copy, PartialEq)]
pub struct Rotation(pub [Number; 4]);

impl Position {
    /// The origin: `[0.0, 0.0, 0.0]`.
    pub open spec fn spec_origin() -> Position {
        Position([Number::zero(), Number::zero(), Number::zero()])
    }

    /// The origin: `[0.0, 0.0, 0.0]`.
    #[verifier::when_used_as_spec(spec_origin)]
    pub fn origin() -> (r: Position)
        ensures
            r == Position::spec_origin(),
    {
        let r = Position([Number::zero(), Number::zero(), Number::zero()]);
        assert(r.0 =~= Position::spec_origin().0);
        r
    }
}

impl Rotation {
    /// No rotation: `[0.0, 0.0, 0.0, 1.0]`.
    pub open spec fn spec_identity() -> Rotation {
        Rotation([Number::zero(), Number::zero(), Number::zero(), Number::one()])
    }

    /// No rotation: `[0.0, 0.0, 0.0, 1.0]`.
    #[verifier::when_used_as_spec(spec_identity)]
    pub fn identity() -> (r: Rotation)
        ensures
            r == Rotation::spec_identity(),
    {
        let r = Rotation([Number::zero(), Number::zero(), Number::zero(), Number::one()]);
        assert(r.0 =~= Rotation::spec_identity().0);
        r
    }
}

/// A point in the plane of a sketch.
#[derive(Debug, Clone, Copy, PartialEq, Eq, Structural)]
pub struct Point2d {
    pub x: Number,
    pub y: Number,
}

/// A point in space.
#[derive(Debug, Clone, Copy, PartialEq, Eq, Structural)]
pub struct Point3d {
    pub x: Number,
    pub y: Number,
    pub z: Number,
}

impl Point3d {
    /// The point with the given coordinates.
    pub fn new(x: Number, y: Number, z: Number) -> (r: Point3d)
        ensures
            r == (Point3d { x, y, z }),
    {
        Point3d { x, y, z }
    }
}

impl Point2d {
    /// This point in space, on the plane `z = 0.0`.
    pub open spec fn spec_flat(&self) -> Point3d {
        Point3d { x: self.x, y: self.y, z: Number::zero() }
    }

    /// This point in space, on the plane `z = 0.0`.
    #[verifier::when_used_as_spec(spec_flat)]
    pub fn flat(&self) -> (r: Point3d)
        ensures
            r == self.spec_flat(),
    {
        Point3d { x: self.x, y: self.y, z: Number::zero() }
    }
}

/// The identity and origin of a piece of geometry.
#[derive(Debug, Clone, Copy, PartialEq)]
pub struct GeoMeta {
    /// The id of the geometry, which is also the id of the engine command
    /// that made it.
    pub id: u128,
    /// Metadata.
    pub metadata: Metadata,
}

impl GeoMeta {
    /// The metadata of geometry `id` made by the call at `source_range`.
    pub open spec fn spec_new(id: u128, source_range: SourceRange) -> GeoMeta {
        GeoMeta { id, metadata: Metadata { source_range } }
    }

    /// The metadata of geometry `id` made by the call at `source_range`.
    #[verifier::when_used_as_spec(spec_new)]
    pub fn new(id: u128, source_range: SourceRange) -> (r: GeoMeta)
        ensures
            r == GeoMeta::spec_new(id, source_range),
    {
        GeoMeta { id, metadata: Metadata { source_range } }
    }
}

/// What every path segment has: where it starts and ends, its name, and its
/// identity.
#[derive(Debug, PartialEq)]
pub struct BasePath {
    /// The from point.
    pub from: Point2d,
    /// The to point.
    pub to: Point2d,
    /// The name of the path: its tag, or the empty string.
    pub name: String,
    /// Metadata.
    pub geo_meta: GeoMeta,
}

/// What a [`BasePath`] holds.
pub ghost struct BasePathView {
    pub from: Point2d,
    pub to: Point2d,
    pub name: Seq<char>,
    pub geo_meta: GeoMeta,
}

impl View for BasePath {
    type V = BasePathView;

    open spec fn view(&self) -> BasePathView {
        BasePathView { from: self.from, to: self.to, name: self.name@, geo_meta: self.geo_meta }
    }
}

impl Clone for BasePath {
    fn clone(&self) -> (r: Self)
        ensures
            r == *self,
    {
        BasePath { from: self.from, to: self.to, name: self.name.clone(), geo_meta: self.geo_meta }
    }
}

/// A path segment of a sketch.
#[derive(Debug, PartialEq)]
pub enum Path {
    /// A path that goes to a point.
    ToPoint { base: BasePath },
    /// A arc that is tangential to the last path segment that goes to a point.
    TangentialArcTo {
        base: BasePath,
        /// The center of the arc.
        center: Point2d,
        /// Whether the arc is counter-clockwise.
        ccw: bool,
    },
    /// A arc that is tangential to the last path segment.
    TangentialArc { base: BasePath },
    /// A path that is horizontal.
    Horizontal {
        base: BasePath,
        /// The x coordinate.
        x: Number,
    },
    /// An angled line to.
    AngledLineTo {
        base: BasePath,
        /// The x coordinate.
        x: Option<Number>,
        /// The y coordinate.
        y: Option<Number>,
    },
    /// A base path.
    Base { base: BasePath },
}

/// What a [`Path`] holds.
pub ghost enum PathView {
    ToPoint { base: BasePathView },
    TangentialArcTo { base: BasePathView, center: Point2d, ccw: bool },
    TangentialArc { base: BasePathView },
    Horizontal { base: BasePathView, x: Number },
    AngledLineTo { base: BasePathView, x: Option<Number>, y: Option<Number> },
    Base { base: BasePathView },
}

impl View for Path {
    type V = PathView;

    open spec fn view(&self) -> PathView {
        match self {
            Path::ToPoint { base } => PathView::ToPoint { base: base@ },
            Path::TangentialArcTo { base, center, ccw } => PathView::TangentialArcTo {
                base: base@,
                center: *center,
                ccw: *ccw,
            },
            Path::TangentialArc { base } => PathView::TangentialArc { base: base@ },
            Path::Horizontal { base, x } => PathView::Horizontal { base: base@, x: *x },
            Path::AngledLineTo { base, x, y } => PathView::AngledLineTo { base: base@, x: *x, y: *y },
            Path::Base { base } => PathView::Base { base: base@ },
        }
    }
}

impl PathView {
    /// What this segment has in common with every other.
    pub open spec fn base(&self) -> BasePathView {
        match self {
            PathView::ToPoint { base } => *base,
            PathView::TangentialArcTo { base, .. } => *base,
            PathView::TangentialArc { base } => *base,
            PathView::Horizontal { base, .. } => *base,
            PathView::AngledLineTo { base, .. } => *base,
            PathView::Base { base } => *base,
        }
    }
}

/// What a list of segments holds, in order.
pub open spec fn path_views(paths: Seq<Path>) -> Seq<PathView> {
    Seq::new(paths.len(), |i: int| paths[i]@)
}

impl Clone for Path {
    fn clone(&self) -> (r: Self)
        ensures
            r == *self,
    {
        match self {
            Path::ToPoint { base } => Path::ToPoint { base: base.clone() },
            Path::TangentialArcTo { base, center, ccw } => Path::TangentialArcTo {
                base: base.clone(),
                center: *center,
                ccw: *ccw,
            },
            Path::TangentialArc { base } => Path::TangentialArc { base: base.clone() },
            Path::Horizontal { base, x } => Path::Horizontal { base: base.clone(), x: *x },
            Path::AngledLineTo { base, x, y } => Path::AngledLineTo {
                base: base.clone(),
                x: *x,
                y: *y,
            },
            Path::Base { base } => Path::Base { base: base.clone() },
        }
    }
}

impl Path {
    /// The id of this segment.
    pub fn get_id(&self) -> (r: u128)
        ensures
            r == self@.base().geo_meta.id,
    {
        self.get_base().geo_meta.id
    }

    /// The name of this segment.
    pub fn get_name(&self) -> (r: String)
        ensures
            r@ == self@.base().name,
    {
        self.get_base().name.clone()
    }

    /// What this segment has in common with every other.
    pub fn get_base(&self) -> (r: &BasePath)
        ensures
            r@ == self@.base(),
    {
        match self {
            Path::ToPoint { base } => base,
            Path::TangentialArcTo { base, .. } => base,
            Path::TangentialArc { base } => base,
            Path::Horizontal { base, .. } => base,
            Path::AngledLineTo { base, .. } => base,
            Path::Base { base } => base,
        }
    }
}

/// A flat side of an extrusion.
#[derive(Debug, PartialEq)]
pub struct ExtrudePlane {
    /// The position.
    pub position: Position,
    /// The rotation.
    pub rotation: Rotation,
    /// The face id for the extrude plane.
    pub face_id: u128,
    /// The name.
    pub name: String,
    /// Metadata.
    pub geo_meta: GeoMeta,
}

/// A curved side of an extrusion.
#[derive(Debug, PartialEq)]
pub struct ExtrudeArc {
    /// The position.
    pub position: Position,
    /// The rotation.
    pub rotation: Rotation,
    /// The face id for the extrude arc.
    pub face_id: u128,
    /// The name.
    pub name: String,
    /// Metadata.
    pub geo_meta: GeoMeta,
}

impl Clone for ExtrudePlane {
    fn clone(&self) -> (r: Self)
        ensures
            r == *self,
    {
        ExtrudePlane {
            position: self.position,
            rotation: self.rotation,
            face_id: self.face_id,
            name: self.name.clone(),
            geo_meta: self.geo_meta,
        }
    }
}

impl Clone for ExtrudeArc {
    fn clone(&self) -> (r: Self)
        ensures
            r == *self,
    {
        ExtrudeArc {
            position: self.position,
            rotation: self.rotation,
            face_id: self.face_id,
            name: self.name.clone(),
            geo_meta: self.geo_meta,
        }
    }
}

/// An extrude surface.
#[derive(Debug, PartialEq)]
pub enum ExtrudeSurface {
    /// An extrude plane.
    ExtrudePlane(ExtrudePlane),
    /// An extrude arc.
    ExtrudeArc(ExtrudeArc),
}

/// What a side of an extrusion holds.
pub ghost struct ExtrudeFaceView {
    pub position: Position,
    pub rotation: Rotation,
    pub face_id: u128,
    pub name: Seq<char>,
    pub geo_meta: GeoMeta,
}

/// What an [`ExtrudeSurface`] holds.
pub ghost enum ExtrudeSurfaceView {
    ExtrudePlane(ExtrudeFaceView),
    ExtrudeArc(ExtrudeFaceView),
}

impl View for ExtrudeSurface {
    type V = ExtrudeSurfaceView;

    open spec fn view(&self) -> ExtrudeSurfaceView {
        match self {
            ExtrudeSurface::ExtrudePlane(p) => ExtrudeSurfaceView::ExtrudePlane(
                ExtrudeFaceView {
                    position: p.position,
                    rotation: p.rotation,
                    face_id: p.face_id,
                    name: p.name@,
                    geo_meta: p.geo_meta,
                },
            ),
            ExtrudeSurface::ExtrudeArc(a) => ExtrudeSurfaceView::ExtrudeArc(
                ExtrudeFaceView {
                    position: a.position,
                    rotation: a.rotation,
                    face_id: a.face_id,
                    name: a.name@,
                    geo_meta: a.geo_meta,
                },
            ),
        }
    }
}

impl ExtrudeSurfaceView {
    /// The fields of the surface, whichever kind it is.
    pub open spec fn face(&self) -> ExtrudeFaceView {
        match self {
            ExtrudeSurfaceView::ExtrudePlane(f) => *f,
            ExtrudeSurfaceView::ExtrudeArc(f) => *f,
        }
    }
}

/// What a list of surfaces holds, in order.
pub open spec fn surface_views(surfaces: Seq<ExtrudeSurface>) -> Seq<ExtrudeSurfaceView> {
    Seq::new(surfaces.len(), |i: int| surfaces[i]@)
}

impl Clone for ExtrudeSurface {
    fn clone(&self) -> (r: Self)
        ensures
            r == *self,
    {
        match self {
            ExtrudeSurface::ExtrudePlane(p) => ExtrudeSurface::ExtrudePlane(p.clone()),
            ExtrudeSurface::ExtrudeArc(a) => ExtrudeSurface::ExtrudeArc(a.clone()),
        }
    }
}

impl ExtrudeSurface {
    /// The id of this surface.
    pub fn get_id(&self) -> (r: u128)
        ensures
            r == self@.face().geo_meta.id,
    {
        match self {
            ExtrudeSurface::ExtrudePlane(p) => p.geo_meta.id,
            ExtrudeSurface::ExtrudeArc(a) => a.geo_meta.id,
        }
    }

    /// The name of this surface.
    pub fn get_name(&self) -> (r: String)
        ensures
            r@ == self@.face().name,
    {
        match self {
            ExtrudeSurface::ExtrudePlane(p) => p.name.clone(),
            ExtrudeSurface::ExtrudeArc(a) => a.name.clone(),
        }
    }

    /// The position of this surface.
    pub fn get_position(&self) -> (r: Position)
        ensures
            r == self@.face().position,
    {
        match self {
            ExtrudeSurface::ExtrudePlane(p) => p.position,
            ExtrudeSurface::ExtrudeArc(a) => a.position,
        }
    }

    /// The rotation of this surface.
    pub fn get_rotation(&self) -> (r: Rotation)
        ensures
            r == self@.face().rotation,
    {
        match self {
            ExtrudeSurface::ExtrudePlane(p) => p.rotation,
            ExtrudeSurface::ExtrudeArc(a) => a.rotation,
        }
    }
}

/// Which plane a [`Plane`] is.
#[derive(Debug, Clone, Copy, PartialEq, Eq, Structural)]
pub enum PlaneType {
    XY,
    XZ,
    YZ,
    /// A plane given by its origin and axes.
    Custom,
}

/// A plane to sketch on.
#[derive(Debug, PartialEq)]
pub struct Plane {
    /// The id of the plane.
    pub id: u128,
    /// Which plane this is.
    pub value: PlaneType,
    /// Origin of the plane.
    pub origin: Point3d,
    /// The plane's x axis.
    pub x_axis: Point3d,
    /// The plane's y axis.
    pub y_axis: Point3d,
    /// The z axis (normal).
    pub z_axis: Point3d,
    /// Metadata.
    pub meta: Vec<Metadata>,
}

/// What a [`Plane`] holds.
pub ghost struct PlaneView {
    pub id: u128,
    pub value: PlaneType,
    pub origin: Point3d,
    pub x_axis: Point3d,
    pub y_axis: Point3d,
    pub z_axis: Point3d,
    pub meta: Seq<Metadata>,
}

impl View for Plane {
    type V = PlaneView;

    open spec fn view(&self) -> PlaneView {
        PlaneView {
            id: self.id,
            value: self.value,
            origin: self.origin,
            x_axis: self.x_axis,
            y_axis: self.y_axis,
            z_axis: self.z_axis,
            meta: self.meta@,
        }
    }
}

impl Clone for Plane {
    fn clone(&self) -> (r: Self)
        ensures
            r@ == self@,
    {
        Plane {
            id: self.id,
            value: self.value,
            origin: self.origin,
            x_axis: self.x_axis,
            y_axis: self.y_axis,
            z_axis: self.z_axis,
            meta: self.meta.clone(),
        }
    }
}

/// A face of an extrusion to sketch on.
#[derive(Debug, PartialEq)]
pub struct Face {
    /// The id of the face.
    pub id: u128,
    /// The tag of the face.
    pub value: String,
    /// The id of the extrude group that the face belongs to.
    pub sketch_group_id: u128,
    /// The id under which the engine knows the face.
    pub face_id: u128,
    /// The face's x axis.
    pub x_axis: Point3d,
    /// The face's y axis.
    pub y_axis: Point3d,
    /// The z axis (normal).
    pub z_axis: Point3d,
    /// Metadata.
    pub meta: Vec<Metadata>,
}

/// What a [`Face`] holds.
pub ghost struct FaceView {
    pub id: u128,
    pub value: Seq<char>,
    pub sketch_group_id: u128,
    pub face_id: u128,
    pub x_axis: Point3d,
    pub y_axis: Point3d,
    pub z_axis: Point3d,
    pub meta: Seq<Metadata>,
}

impl View for Face {
    type V = FaceView;

    open spec fn view(&self) -> FaceView {
        FaceView {
            id: self.id,
            value: self.value@,
            sketch_group_id: self.sketch_group_id,
            face_id: self.face_id,
            x_axis: self.x_axis,
            y_axis: self.y_axis,
            z_axis: self.z_axis,
            meta: self.meta@,
        }
    }
}

impl Clone for Face {
    fn clone(&self) -> (r: Self)
        ensures
            r@ == self@,
    {
        Face {
            id: self.id,
            value: self.value.clone(),
            sketch_group_id: self.sketch_group_id,
            face_id: self.face_id,
            x_axis: self.x_axis,
            y_axis: self.y_axis,
            z_axis: self.z_axis,
            meta: self.meta.clone(),
        }
    }
}

/// What a sketch lies on.
#[derive(Debug, PartialEq)]
pub enum SketchSurface {
    Plane(Box<Plane>),
    Face(Box<Face>),
}

/// What a [`SketchSurface`] holds.
pub ghost enum SketchSurfaceView {
    Plane(PlaneView),
    Face(FaceView),
}

impl View for SketchSurface {
    type V = SketchSurfaceView;

    open spec fn view(&self) -> SketchSurfaceView {
        match self {
            SketchSurface::Plane(p) => SketchSurfaceView::Plane(p@),
            SketchSurface::Face(f) => SketchSurfaceView::Face(f@),
        }
    }
}

impl Clone for SketchSurface {
    fn clone(&self) -> (r: Self)
        ensures
            r@ == self@,
    {
        match self {
            SketchSurface::Plane(p) => {
                let plane: &Plane = p;
                SketchSurface::Plane(Box::new(plane.clone()))
            },
            SketchSurface::Face(f) => {
                let face: &Face = f;
                SketchSurface::Face(Box::new(face.clone()))
            },
        }
    }
}

impl SketchSurfaceView {
    /// The id of the surface.
    pub open spec fn id(&self) -> u128 {
        match self {
            SketchSurfaceView::Plane(p) => p.id,
            SketchSurfaceView::Face(f) => f.id,
        }
    }

    /// The x axis of the surface.
    pub open spec fn x_axis(&self) -> Point3d {
        match self {
            SketchSurfaceView::Plane(p) => p.x_axis,
            SketchSurfaceView::Face(f) => f.x_axis,
        }
    }

    /// The y axis of the surface.
    pub open spec fn y_axis(&self) -> Point3d {
        match self {
            SketchSurfaceView::Plane(p) => p.y_axis,
            SketchSurfaceView::Face(f) => f.y_axis,
        }
    }

    /// The z axis of the surface.
    pub open spec fn z_axis(&self) -> Point3d {
        match self {
            SketchSurfaceView::Plane(p) => p.z_axis,
            SketchSurfaceView::Face(f) => f.z_axis,
        }
    }
}

impl SketchSurface {
    /// The id of the surface.
    pub fn id(&self) -> (r: u128)
        ensures
            r == self@.id(),
    {
        match self {
            SketchSurface::Plane(p) => p.id,
            SketchSurface::Face(f) => f.id,
        }
    }

    /// The x axis of the surface.
    pub fn x_axis(&self) -> (r: Point3d)
        ensures
            r == self@.x_axis(),
    {
        match self {
            SketchSurface::Plane(p) => p.x_axis,
            SketchSurface::Face(f) => f.x_axis,
        }
    }

    /// The y axis of the surface.
    pub fn y_axis(&self) -> (r: Point3d)
        ensures
            r == self@.y_axis(),
    {
        match self {
            SketchSurface::Plane(p) => p.y_axis,
            SketchSurface::Face(f) => f.y_axis,
        }
    }

    /// The z axis of the surface.
    pub fn z_axis(&self) -> (r: Point3d)
        ensures
            r == self@.z_axis(),
    {
        match self {
            SketchSurface::Plane(p) => p.z_axis,
            SketchSurface::Face(f) => f.z_axis,
        }
    }
}

/// The first segment of `paths` that `hit` holds of, if there is one.
pub open spec fn first_path(paths: Seq<PathView>, hit: spec_fn(PathView) -> bool) -> Option<PathView>
    decreases paths.len(),
{
    if paths.len() == 0 {
        None
    } else if hit(paths[0]) {
        Some(paths[0])
    } else {
        first_path(paths.drop_first(), hit)
    }
}

/// The first surface of `surfaces` that `hit` holds of, if there is one.
pub open spec fn first_surface(
    surfaces: Seq<ExtrudeSurfaceView>,
    hit: spec_fn(ExtrudeSurfaceView) -> bool,
) -> Option<ExtrudeSurfaceView>
    decreases surfaces.len(),
{
    if surfaces.len() == 0 {
        None
    } else if hit(surfaces[0]) {
        Some(surfaces[0])
    } else {
        first_surface(surfaces.drop_first(), hit)
    }
}

/// Whether a segment has the id `id`.
pub open spec fn path_has_id(id: u128) -> spec_fn(PathView) -> bool {
    |p: PathView| p.base().geo_meta.id == id
}

/// Whether a segment has the name `name`.
pub open spec fn path_has_name(name: Seq<char>) -> spec_fn(PathView) -> bool {
    |p: PathView| p.base().name == name
}

/// Whether a surface has the id `id`.
pub open spec fn surface_has_id(id: u128) -> spec_fn(ExtrudeSurfaceView) -> bool {
    |s: ExtrudeSurfaceView| s.face().geo_meta.id == id
}

/// Whether a surface has the name `name`.
pub open spec fn surface_has_name(name: Seq<char>) -> spec_fn(ExtrudeSurfaceView) -> bool {
    |s: ExtrudeSurfaceView| s.face().name == name
}

/// Scanning from `i` finds what scanning from the start finds, when nothing
/// before `i` is a hit.
pub proof fn lemma_first_path_skip(paths: Seq<PathView>, hit: spec_fn(PathView) -> bool, i: int)
    requires
        0 <= i <= paths.len(),
        forall|j: int| 0 <= j < i ==> !hit(#[trigger] paths[j]),
    ensures
        first_path(paths, hit) == first_path(paths.skip(i), hit),
    decreases i,
{
    if i == 0 {
        assert(paths.skip(0) =~= paths);
    } else {
        lemma_first_path_skip(paths, hit, i - 1);
        let rest = paths.skip(i - 1);
        assert(rest[0] == paths[i - 1]);
        assert(rest.drop_first() =~= paths.skip(i));
    }
}

/// The same, for surfaces.
pub proof fn lemma_first_surface_skip(
    surfaces: Seq<ExtrudeSurfaceView>,
    hit: spec_fn(ExtrudeSurfaceView) -> bool,
    i: int,
)
    requires
        0 <= i <= surfaces.len(),
        forall|j: int| 0 <= j < i ==> !hit(#[trigger] surfaces[j]),
    ensures
        first_surface(surfaces, hit) == first_surface(surfaces.skip(i), hit),
    decreases i,
{
    if i == 0 {
        assert(surfaces.skip(0) =~= surfaces);
    } else {
        lemma_first_surface_skip(surfaces, hit, i - 1);
        let rest = surfaces.skip(i - 1);
        assert(rest[0] == surfaces[i - 1]);
        assert(rest.drop_first() =~= surfaces.skip(i));
    }
}

/// What the last segment of a sketch says of the tangent at its end.
#[derive(Debug, Clone, Copy, PartialEq, Eq, Structural)]
pub struct GetTangentialInfoFromPathsResult {
    /// The center of the last arc, or else a point that the tangent passes
    /// through.
    pub center_or_tangent_point: Point2d,
    /// Whether the point is the center of an arc.
    pub is_center: bool,
    /// Whether that arc runs counter-clockwise.
    pub ccw: bool,
}

/// A sketch group is a collection of paths.
#[derive(Debug, PartialEq)]
pub struct SketchGroup {
    /// The id of the sketch group.
    pub id: u128,
    /// The paths in the sketch group.
    pub value: Vec<Path>,
    /// What the sketch group is on (can be a face or a plane).
    pub on: SketchSurface,
    /// The starting path.
    pub start: BasePath,
    /// The position of the sketch group.
    pub position: Position,
    /// The rotation of the sketch group base plane.
    pub rotation: Rotation,
    /// The x-axis of the sketch group base plane in the 3D space.
    pub x_axis: Point3d,
    /// The y-axis of the sketch group base plane in the 3D space.
    pub y_axis: Point3d,
    /// The z-axis of the sketch group base plane in the 3D space.
    pub z_axis: Point3d,
    /// The plane id or face id of the sketch group.
    pub entity_id: Option<u128>,
    /// Metadata.
    pub meta: Vec<Metadata>,
}

/// What a [`SketchGroup`] holds.
pub ghost struct SketchGroupView {
    pub id: u128,
    pub value: Seq<PathView>,
    pub on: SketchSurfaceView,
    pub start: BasePathView,
    pub position: Position,
    pub rotation: Rotation,
    pub x_axis: Point3d,
    pub y_axis: Point3d,
    pub z_axis: Point3d,
    pub entity_id: Option<u128>,
    pub meta: Seq<Metadata>,
}

impl View for SketchGroup {
    type V = SketchGroupView;

    open spec fn view(&self) -> SketchGroupView {
        SketchGroupView {
            id: self.id,
            value: path_views(self.value@),
            on: self.on@,
            start: self.start@,
            position: self.position,
            rotation: self.rotation,
            x_axis: self.x_axis,
            y_axis: self.y_axis,
            z_axis: self.z_axis,
            entity_id: self.entity_id,
            meta: self.meta@,
        }
    }
}

impl Clone for SketchGroup {
    fn clone(&self) -> (r: Self)
        ensures
            r@ == self@,
    {
        let value = self.value.clone();
        assert(path_views(value@) =~= path_views(self.value@));
        SketchGroup {
            id: self.id,
            value,
            on: self.on.clone(),
            start: self.start.clone(),
            position: self.position,
            rotation: self.rotation,
            x_axis: self.x_axis,
            y_axis: self.y_axis,
            z_axis: self.z_axis,
            entity_id: self.entity_id,
            meta: self.meta.clone(),
        }
    }
}

impl SketchGroupView {
    /// Where the pen stands: the end of the last segment, or of the starting
    /// path where there is no segment yet.
    pub open spec fn coords(&self) -> Point2d {
        if self.value.len() == 0 {
            self.start.to
        } else {
            self.value.last().base().to
        }
    }

    /// The tangent reference at the pen: the center and direction of the
    /// last segment where it is an arc to a point, or else the end of the
    /// last segment (of the starting path where there is none).
    pub open spec fn tangential_info(&self) -> GetTangentialInfoFromPathsResult {
        if self.value.len() == 0 {
            GetTangentialInfoFromPathsResult {
                center_or_tangent_point: self.start.to,
                is_center: false,
                ccw: false,
            }
        } else {
            match self.value.last() {
                PathView::TangentialArcTo { center, ccw, .. } => GetTangentialInfoFromPathsResult {
                    center_or_tangent_point: center,
                    is_center: true,
                    ccw,
                },
                other => GetTangentialInfoFromPathsResult {
                    center_or_tangent_point: other.base().to,
                    is_center: false,
                    ccw: false,
                },
            }
        }
    }

    /// The base of the starting path where it has the name, or else of the
    /// first segment that has it.
    pub open spec fn base_by_name_or_start(&self, name: Seq<char>) -> Option<BasePathView> {
        if self.start.name == name {
            Some(self.start)
        } else {
            match first_path(self.value, path_has_name(name)) {
                Some(p) => Some(p.base()),
                None => None,
            }
        }
    }

    /// Each segment starts where the one before it ends, the first one where
    /// the starting path ends, and the starting path is a single point.
    pub open spec fn contiguous(&self) -> bool {
        &&& self.start.from == self.start.to
        &&& self.value.len() > 0 ==> self.value[0].base().from == self.start.to
        &&& forall|i: int, j: int|
            0 <= i && j == i + 1 && j < self.value.len() ==> (#[trigger] self.value[i]).base().to == (
            #[trigger] self.value[j]).base().from
    }

    /// This sketch with one more segment at its end.
    pub open spec fn with_segment(&self, segment: PathView) -> SketchGroupView {
        SketchGroupView { value: self.value.push(segment), ..*self }
    }
}

/// A sketch stays contiguous when a segment that starts at the pen is added.
pub proof fn lemma_with_segment_contiguous(sketch_group: SketchGroupView, segment: PathView)
    requires
        sketch_group.contiguous(),
        segment.base().from == sketch_group.coords(),
    ensures
        sketch_group.with_segment(segment).contiguous(),
        sketch_group.with_segment(segment).coords() == segment.base().to,
{
    let next = sketch_group.with_segment(segment);
    assert forall|i: int, j: int| 0 <= i && j == i + 1 && j < next.value.len() implies (
    #[trigger] next.value[i]).base().to == (#[trigger] next.value[j]).base().from by {
        if j < sketch_group.value.len() {
            assert(next.value[i] == sketch_group.value[i]);
            assert(next.value[j] == sketch_group.value[j]);
        } else {
            assert(next.value[i] == sketch_group.value.last());
        }
    }
}

impl SketchGroup {
    /// The first segment with the id `id`.
    pub fn get_path_by_id(&self, id: u128) -> (r: Option<&Path>)
        ensures
            match r {
                Some(p) => first_path(self@.value, path_has_id(id)) == Some(p@),
                None => first_path(self@.value, path_has_id(id)).is_none(),
            },
    {
        let ghost hit = path_has_id(id);
        let mut i: usize = 0;
        while i < self.value.len()
            invariant
                i <= self.value.len(),
                hit == path_has_id(id),
                forall|j: int| 0 <= j < i ==> !hit(#[trigger] self@.value[j]),
            decreases self.value.len() - i,
        {
            if self.value[i].get_id() == id {
                proof {
                    lemma_first_path_skip(self@.value, hit, i as int);
                    assert(self@.value.skip(i as int)[0] == self.value@[i as int]@);
                }
                return Some(&self.value[i]);
            }
            assert(self@.value[i as int] == self.value@[i as int]@);
            i = i + 1;
        }
        proof {
            lemma_first_path_skip(self@.value, hit, i as int);
        }
        None
    }

    /// The first segment with the name `name`.
    pub fn get_path_by_name(&self, name: &str) -> (r: Option<&Path>)
        ensures
            match r {
                Some(p) => first_path(self@.value, path_has_name(name@)) == Some(p@),
                None => first_path(self@.value, path_has_name(name@)).is_none(),
            },
    {
        let wanted = String::from_str(name);
        let ghost hit = path_has_name(name@);
        let mut i: usize = 0;
        while i < self.value.len()
            invariant
                i <= self.value.len(),
                wanted@ == name@,
                hit == path_has_name(name@),
                forall|j: int| 0 <= j < i ==> !hit(#[trigger] self@.value[j]),
            decreases self.value.len() - i,
        {
            if self.value[i].get_base().name == wanted {
                proof {
                    lemma_first_path_skip(self@.value, hit, i as int);
                    assert(self@.value.skip(i as int)[0] == self.value@[i as int]@);
                }
                return Some(&self.value[i]);
            }
            assert(self@.value[i as int] == self.value@[i as int]@);
            i = i + 1;
        }
        proof {
            lemma_first_path_skip(self@.value, hit, i as int);
        }
        None
    }

    /// The base of the starting path where it has the name `name`, or else
    /// of the first segment that has it.
    pub fn get_base_by_name_or_start(&self, name: &str) -> (r: Option<&BasePath>)
        ensures
            match r {
                Some(b) => self@.base_by_name_or_start(name@) == Some(b@),
                None => self@.base_by_name_or_start(name@).is_none(),
            },
    {
        let wanted = String::from_str(name);
        if self.start.name == wanted {
            Some(&self.start)
        } else {
            match self.get_path_by_name(name) {
                Some(p) => Some(p.get_base()),
                None => None,
            }
        }
    }

    /// Where the pen stands: the end of the last segment, or of the starting
    /// path where there is no segment yet.
    pub fn coords(&self) -> (r: Point2d)
        ensures
            r == self@.coords(),
    {
        if self.value.len() == 0 {
            return self.start.to;
        }
        let index = self.value.len() - 1;
        self.value[index].get_base().to
    }

    /// Where the pen stands, as [`SketchGroup::coords`] gives it. This never
    /// fails.
    pub fn get_coords_from_paths(&self) -> (r: Result<Point2d, KclError>)
        ensures
            r is Ok,
            r->Ok_0 == self@.coords(),
    {
        Ok(self.coords())
    }

    /// The tangent reference at the pen.
    pub fn get_tangential_info_from_paths(&self) -> (r: GetTangentialInfoFromPathsResult)
        ensures
            r == self@.tangential_info(),
    {
        if self.value.len() == 0 {
            return GetTangentialInfoFromPathsResult {
                center_or_tangent_point: self.start.to,
                is_center: false,
                ccw: false,
            };
        }
        let index = self.value.len() - 1;
        match &self.value[index] {
            Path::TangentialArcTo { center, ccw, .. } => GetTangentialInfoFromPathsResult {
                center_or_tangent_point: *center,
                is_center: true,
                ccw: *ccw,
            },
            other => GetTangentialInfoFromPathsResult {
                center_or_tangent_point: other.get_base().to,
                is_center: false,
                ccw: false,
            },
        }
    }
}

/// An extrude group is a collection of extrude surfaces.
#[derive(Debug, PartialEq)]
pub struct ExtrudeGroup {
    /// The id of the extrude group.
    pub id: u128,
    /// The extrude surfaces.
    pub value: Vec<ExtrudeSurface>,
    /// The height of the extrude group.
    pub height: Number,
    /// The position of the extrude group.
    pub position: Position,
    /// The rotation of the extrude group.
    pub rotation: Rotation,
    /// The x-axis of the extrude group base plane in the 3D space.
    pub x_axis: Point3d,
    /// The y-axis of the extrude group base plane in the 3D space.
    pub y_axis: Point3d,
    /// The z-axis of the extrude group base plane in the 3D space.
    pub z_axis: Point3d,
    /// The id of the extrusion start cap.
    pub start_cap_id: Option<u128>,
    /// The id of the extrusion end cap.
    pub end_cap_id: Option<u128>,
    /// Metadata.
    pub meta: Vec<Metadata>,
}

/// What an [`ExtrudeGroup`] holds.
pub ghost struct ExtrudeGroupView {
    pub id: u128,
    pub value: Seq<ExtrudeSurfaceView>,
    pub height: Number,
    pub position: Position,
    pub rotation: Rotation,
    pub x_axis: Point3d,
    pub y_axis: Point3d,
    pub z_axis: Point3d,
    pub start_cap_id: Option<u128>,
    pub end_cap_id: Option<u128>,
    pub meta: Seq<Metadata>,
}

impl View for ExtrudeGroup {
    type V = ExtrudeGroupView;

    open spec fn view(&self) -> ExtrudeGroupView {
        ExtrudeGroupView {
            id: self.id,
            value: surface_views(self.value@),
            height: self.height,
            position: self.position,
            rotation: self.rotation,
            x_axis: self.x_axis,
            y_axis: self.y_axis,
            z_axis: self.z_axis,
            start_cap_id: self.start_cap_id,
            end_cap_id: self.end_cap_id,
            meta: self.meta@,
        }
    }
}

impl Clone for ExtrudeGroup {
    fn clone(&self) -> (r: Self)
        ensures
            r@ == self@,
    {
        let value = self.value.clone();
        assert(surface_views(value@) =~= surface_views(self.value@));
        ExtrudeGroup {
            id: self.id,
            value,
            height: self.height,
            position: self.position,
            rotation: self.rotation,
            x_axis: self.x_axis,
            y_axis: self.y_axis,
            z_axis: self.z_axis,
            start_cap_id: self.start_cap_id,
            end_cap_id: self.end_cap_id,
            meta: self.meta.clone(),
        }
    }
}

impl ExtrudeGroup {
    /// The first surface with the id `id`.
    pub fn get_path_by_id(&self, id: u128) -> (r: Option<&ExtrudeSurface>)
        ensures
            match r {
                Some(s) => first_surface(self@.value, surface_has_id(id)) == Some(s@),
                None => first_surface(self@.value, surface_has_id(id)).is_none(),
            },
    {
        let ghost hit = surface_has_id(id);
        let mut i: usize = 0;
        while i < self.value.len()
            invariant
                i <= self.value.len(),
                hit == surface_has_id(id),
                forall|j: int| 0 <= j < i ==> !hit(#[trigger] self@.value[j]),
            decreases self.value.len() - i,
        {
            if self.value[i].get_id() == id {
                proof {
                    lemma_first_surface_skip(self@.value, hit, i as int);
                    assert(self@.value.skip(i as int)[0] == self.value@[i as int]@);
                }
                return Some(&self.value[i]);
            }
            assert(self@.value[i as int] == self.value@[i as int]@);
            i = i + 1;
        }
        proof {
            lemma_first_surface_skip(self@.value, hit, i as int);
        }
        None
    }

    /// The first surface with the name `name`.
    pub fn get_path_by_name(&self, name: &str) -> (r: Option<&ExtrudeSurface>)
        ensures
            match r {
                Some(s) => first_surface(self@.value, surface_has_name(name@)) == Some(s@),
                None => first_surface(self@.value, surface_has_name(name@)).is_none(),
            },
    {
        let wanted = String::from_str(name);
        let ghost hit = surface_has_name(name@);
        let mut i: usize = 0;
        while i < self.value.len()
            invariant
                i <= self.value.len(),
                wanted@ == name@,
                hit == surface_has_name(name@),
                forall|j: int| 0 <= j < i ==> !hit(#[trigger] self@.value[j]),
            decreases self.value.len() - i,
        {
            let found = match &self.value[i] {
                ExtrudeSurface::ExtrudePlane(p) => p.name == wanted,
                ExtrudeSurface::ExtrudeArc(a) => a.name == wanted,
            };
            if found {
                proof {
                    lemma_first_surface_skip(self@.value, hit, i as int);
                    assert(self@.value.skip(i as int)[0] == self.value@[i as int]@);
                }
                return Some(&self.value[i]);
            }
            assert(self@.value[i as int] == self.value@[i as int]@);
            i = i + 1;
        }
        proof {
            lemma_first_surface_skip(self@.value, hit, i as int);
        }
        None
    }
}

/// The placement of an extrusion.
#[derive(Debug, PartialEq)]
pub struct ExtrudeTransform {
    pub position: Position,
    pub rotation: Rotation,
    /// Metadata.
    pub meta: Vec<Metadata>,
}

/// What an [`ExtrudeTransform`] holds.
pub ghost struct ExtrudeTransformView {
    pub position: Position,
    pub rotation: Rotation,
    pub meta: Seq<Metadata>,
}

impl View for ExtrudeTransform {
    type V = ExtrudeTransformView;

    open spec fn view(&self) -> ExtrudeTransformView {
        ExtrudeTransformView { position: self.position, rotation: self.rotation, meta: self.meta@ }
    }
}

impl Clone for ExtrudeTransform {
    fn clone(&self) -> (r: Self)
        ensures
            r@ == self@,
    {
        ExtrudeTransform {
            position: self.position,
            rotation: self.rotation,
            meta: self.meta.clone(),
        }
    }
}

/// The views of a list of sketch groups, in order.
pub open spec fn sketch_group_views(groups: Seq<Box<SketchGroup>>) -> Seq<SketchGroupView> {
    Seq::new(groups.len(), |i: int| groups[i]@)
}

/// Copies a list of sketch groups.
pub fn clone_sketch_groups(groups: &Vec<Box<SketchGroup>>) -> (r: Vec<Box<SketchGroup>>)
    ensures
        sketch_group_views(r@) == sketch_group_views(groups@),
{
    let mut out: Vec<Box<SketchGroup>> = Vec::new();
    let mut i: usize = 0;
    while i < groups.len()
        invariant
            i <= groups.len(),
            out@.len() == i,
            forall|j: int| 0 <= j < i ==> (#[trigger] out@[j])@ == groups@[j]@,
        decreases groups.len() - i,
    {
        let group: &SketchGroup = &groups[i];
        out.push(Box::new(group.clone()));
        i = i + 1;
    }
    assert(sketch_group_views(out@) =~= sketch_group_views(groups@));
    out
}

/// One sketch group or several.
#[derive(Debug, PartialEq)]
pub enum SketchGroupSet {
    SketchGroup(Box<SketchGroup>),
    SketchGroups(Vec<Box<SketchGroup>>),
}

impl View for SketchGroupSet {
    type V = Seq<SketchGroupView>;

    /// The sketch groups, in order.
    open spec fn view(&self) -> Seq<SketchGroupView> {
        match self {
            SketchGroupSet::SketchGroup(group) => seq![group@],
            SketchGroupSet::SketchGroups(groups) => sketch_group_views(groups@),
        }
    }
}

} // verus!
