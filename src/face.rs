//! One quad of a voxel: where it stands, how it is turned, whether it is drawn,
//! and the two instance records derived from it.
use vstd::prelude::*;

verus! {

/// An integer grid point.
#[derive(Clone, Copy, Debug, PartialEq, Eq, Structural)]
pub struct Position {
    pub x: i64,
    pub y: i64,
    pub z: i64,
}

impl View for Position {
    type V = (int, int, int);

    open spec fn view(&self) -> (int, int, int) {
        (self.x as int, self.y as int, self.z as int)
    }
}

/// `p` moved by the offset `d`.
pub open spec fn offset_by(p: (int, int, int), d: (int, int, int)) -> (int, int, int) {
    (p.0 + d.0, p.1 + d.1, p.2 + d.2)
}

/// A coordinate axis.
#[derive(Clone, Copy, Debug, PartialEq, Eq, Structural)]
pub enum Axis {
    X,
    Y,
    Z,
}

/// A turn of `degrees` about one axis (a multiple of 90 for a cube face).
#[derive(Clone, Copy, Debug, PartialEq, Eq, Structural)]
pub struct Rotation {
    pub axis: Axis,
    pub degrees: u32,
}

/// The number of faces, and so of instances, of one voxel.
pub const NUM_INSTANCES_PER_CUBE: u32 = 6;

/// Offset of face `i`'s quad origin from its voxel's position. The faces are,
/// in order: back (-z), left (-x), front (+z), right (+x), up (+y), down (-y).
pub open spec fn face_offset(i: int) -> (int, int, int) {
    if i == 0 {
        (0, 0, 0)
    } else if i == 1 {
        (0, 0, 1)
    } else if i == 2 {
        (1, 0, 1)
    } else if i == 3 {
        (1, 0, 0)
    } else if i == 4 {
        (0, 1, 0)
    } else {
        (1, 0, 1)
    }
}

/// The turn that makes the unit quad face outward as face `i`.
pub open spec fn face_rotation(i: int) -> Rotation {
    if i == 0 {
        Rotation { axis: Axis::Z, degrees: 0 }
    } else if i == 1 {
        Rotation { axis: Axis::Y, degrees: 90 }
    } else if i == 2 {
        Rotation { axis: Axis::Y, degrees: 180 }
    } else if i == 3 {
        Rotation { axis: Axis::Y, degrees: 270 }
    } else if i == 4 {
        Rotation { axis: Axis::X, degrees: 90 }
    } else {
        Rotation { axis: Axis::X, degrees: 270 }
    }
}

/// The grid direction that face `i` looks into: a voxel there hides it.
pub open spec fn face_direction(i: int) -> (int, int, int) {
    if i == 0 {
        (0, 0, -1)
    } else if i == 1 {
        (-1, 0, 0)
    } else if i == 2 {
        (0, 0, 1)
    } else if i == 3 {
        (1, 0, 0)
    } else if i == 4 {
        (0, 1, 0)
    } else {
        (0, -1, 0)
    }
}

/// The model transform of one face instance, kept as its two exact factors:
/// the matrix is `translation * rotation`.
#[derive(Clone, Copy, Debug, PartialEq, Eq, Structural)]
pub struct FaceInstanceModelRaw {
    pub translation: Position,
    pub rotation: Rotation,
}

/// The visibility word of one face instance: 0 to skip it, 1 to draw it.
#[derive(Clone, Copy, Debug, PartialEq, Eq, Structural)]
pub struct FaceInstanceRenderRaw {
    pub render: u32,
}

/// One renderable quad of a voxel.
#[derive(Clone, Copy, Debug, PartialEq, Eq, Structural)]
pub struct FaceInstance {
    pub position: Position,
    pub rotation: Rotation,
    pub render: bool,
}

/// The model record of a face.
pub open spec fn model_of(f: FaceInstance) -> FaceInstanceModelRaw {
    FaceInstanceModelRaw { translation: f.position, rotation: f.rotation }
}

/// The visibility word of a face.
pub open spec fn render_of(f: FaceInstance) -> FaceInstanceRenderRaw {
    FaceInstanceRenderRaw { render: if f.render { 1 } else { 0 } }
}

impl FaceInstance {
    pub fn to_raw(&self) -> (r: (FaceInstanceModelRaw, FaceInstanceRenderRaw))
        ensures
            r.0 == model_of(*self),
            r.1 == render_of(*self),
    {
        (
            FaceInstanceModelRaw { translation: self.position, rotation: self.rotation },
            FaceInstanceRenderRaw { render: if !self.render { 0 } else { 1 } },
        )
    }
}

/// The index list of the shared quad: two triangles over its four corners.
pub fn indices() -> (r: Vec<u16>)
    ensures
        r@ == seq![0u16, 1, 2, 0, 2, 3],
{
    let r: Vec<u16> = vec![0, 1, 2, 0, 2, 3];
    assert(r@ =~= seq![0u16, 1, 2, 0, 2, 3]);
    r
}

} // verus!
