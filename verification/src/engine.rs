//! The commands that the core hands to the geometry engine.
//!
//! The library sends nothing. Each operation returns the commands it issues,
//! in the order in which the engine must receive them; the host submits them
//! in that order and stops at the first that the engine refuses.

use vstd::prelude::*;
use crate::geometry::{Point2d, Point3d};
use crate::number::Number;

verus! {

/// The unit of an angle.
#[derive(Debug, Clone, Copy, PartialEq, Eq, Structural)]
pub enum UnitAngle {
    Degrees,
    Radians,
}

/// An angle.
#[derive(Debug, Clone, Copy, PartialEq, Eq, Structural)]
pub struct Angle {
    /// What unit is the measurement?
    pub unit: UnitAngle,
    /// The size of the angle, measured in the chosen unit.
    pub value: Number,
}

impl Angle {
    /// An angle of `size` degrees.
    pub open spec fn spec_from_degrees(size: Number) -> Angle {
        Angle { unit: UnitAngle::Degrees, value: size }
    }

    /// An angle of `size` degrees.
    #[verifier::when_used_as_spec(spec_from_degrees)]
    pub fn from_degrees(size: Number) -> (r: Angle)
        ensures
            r == Angle::spec_from_degrees(size),
    {
        Angle { unit: UnitAngle::Degrees, value: size }
    }

    /// An angle of `size` radians.
    pub fn from_radians(size: Number) -> (r: Angle)
        ensures
            r == (Angle { unit: UnitAngle::Radians, value: size }),
    {
        Angle { unit: UnitAngle::Radians, value: size }
    }
}

/// A segment by which a path is extended.
#[derive(Debug, Clone, Copy, PartialEq, Eq, Structural)]
pub enum PathSegment {
    /// A straight line segment. Goes from the current path "pen" to the
    /// given endpoint.
    Line {
        /// End point of the line.
        end: Point3d,
        /// Whether or not this line is a relative offset.
        relative: bool,
    },
    /// A circular arc segment.
    Arc {
        /// Start of the arc along circle's perimeter.
        start: Angle,
        /// End of the arc along circle's perimeter.
        end: Angle,
        /// Center of the circle.
        center: Point2d,
        /// Radius of the circle.
        radius: Number,
        /// Whether or not this arc is a relative offset.
        relative: bool,
    },
    /// A cubic bezier curve segment.
    Bezier {
        /// First control point.
        control_1: Point3d,
        /// Second control point.
        control_2: Point3d,
        /// Final control point.
        end: Point3d,
        /// Whether or not this bezier is a relative offset.
        relative: bool,
    },
    /// A tangent arc from the current pen position with the given radius and
    /// angle.
    TangentialArc {
        /// Radius of the arc.
        radius: Number,
        /// Offset of the arc.
        offset: Angle,
    },
    /// A tangent arc from the current pen position to the new position.
    TangentialArcTo {
        angle_snap_increment: Option<Angle>,
        /// Where the arc should end.
        to: Point3d,
    },
}

/// A command to the geometry engine.
#[derive(Debug, Clone, Copy, PartialEq, Eq, Structural)]
pub enum ModelingCmd {
    /// Start a new path.
    StartPath,
    /// Move the path's "pen".
    MovePathPen { path: u128, to: Point3d },
    /// Extend a path by adding a new segment which starts at the path's
    /// "pen".
    ExtendPath { path: u128, segment: PathSegment },
    /// Closes a path, converting it to a 2D solid.
    ClosePath { path_id: u128 },
    /// Sketch on some entity (a plane, a face).
    EnableSketchMode {
        animated: bool,
        ortho: bool,
        entity_id: u128,
        adjust_camera: bool,
        planar_normal: Option<Point3d>,
    },
    /// Disable sketch mode.
    SketchModeDisable,
    /// Make a plane.
    MakePlane {
        clobber: bool,
        origin: Point3d,
        size: Number,
        x_axis: Point3d,
        y_axis: Point3d,
        hide: Option<bool>,
    },
    /// Add a hole to a 2D solid.
    Solid2DAddHole { object_id: u128, hole_id: u128 },
    /// Hide or show an object.
    ObjectVisible { object_id: u128, hidden: bool },
}

/// A command together with the id under which it is submitted. Where the
/// command creates a geometric entity, this is the entity's id too.
#[derive(Debug, Clone, Copy, PartialEq, Eq, Structural)]
pub struct EngineCommand {
    pub id: u128,
    pub cmd: ModelingCmd,
}

/// The commands that have been issued and not yet submitted, oldest first.
#[derive(Debug, Clone, PartialEq)]
pub struct CommandBatch {
    pub commands: Vec<EngineCommand>,
}

impl View for CommandBatch {
    type V = Seq<EngineCommand>;

    open spec fn view(&self) -> Seq<EngineCommand> {
        self.commands@
    }
}

impl CommandBatch {
    /// A batch with no command in it.
    pub fn new() -> (r: CommandBatch)
        ensures
            r@ == Seq::<EngineCommand>::empty(),
    {
        CommandBatch { commands: Vec::new() }
    }

    /// Issues `cmd` under the id `id`: it goes to the end of the batch.
    pub fn send_modeling_cmd(&mut self, id: u128, cmd: ModelingCmd)
        ensures
            final(self)@ == old(self)@.push(EngineCommand { id, cmd }),
    {
        self.commands.push(EngineCommand { id, cmd });
    }

    /// How many commands the batch holds.
    pub fn len(&self) -> (r: usize)
        ensures
            r == self@.len(),
    {
        self.commands.len()
    }
}

/// The ids of the planes that the engine provides.
#[derive(Debug, Clone, Copy, PartialEq, Eq, Structural)]
pub struct DefaultPlanes {
    pub xy: u128,
    pub xz: u128,
    pub yz: u128,
    pub neg_xy: u128,
    pub neg_xz: u128,
    pub neg_yz: u128,
}

/// Whether `id` has the bits that mark a UUID as random (version 4, RFC
/// variant).
pub open spec fn spec_is_random_uuid(id: u128) -> bool {
    id & 0x0000_0000_0000_F000_C000_0000_0000_0000 == 0x0000_0000_0000_4000_8000_0000_0000_0000
}

/// Whether `id` has the bits that mark a UUID as random (version 4, RFC
/// variant).
#[verifier::when_used_as_spec(spec_is_random_uuid)]
pub fn is_random_uuid(id: u128) -> (r: bool)
    ensures
        r == spec_is_random_uuid(id),
{
    id & 0x0000_0000_0000_F000_C000_0000_0000_0000 == 0x0000_0000_0000_4000_8000_0000_0000_0000
}

/// A fresh id: the 128 bits of a new random UUID.
///
/// Calls `uuid::Uuid::new_v4` and hands its result on through
/// `Uuid::as_u128`. The value is random; all that is claimed of it is that
/// it carries the version and variant bits that `new_v4` sets.
#[verifier::external_body]
pub(crate) fn new_id() -> (id: u128)
    ensures
        is_random_uuid(id),
{
    uuid::Uuid::new_v4().as_u128()
}

} // verus!
