//! A unit cube made of six face instances, with a cache of their instance
//! records that the owner refreshes by hand after changing visibility.
use vstd::prelude::*;

use crate::face::{
    face_offset, face_rotation, model_of, offset_by, render_of, Axis, FaceInstance,
    FaceInstanceModelRaw, FaceInstanceRenderRaw, Position, Rotation, NUM_INSTANCES_PER_CUBE,
};

verus! {

/// `f` is face `i` of the voxel at `p`, whatever its visibility.
pub open spec fn is_face(f: FaceInstance, p: (int, int, int), i: int) -> bool {
    f.position@ == offset_by(p, face_offset(i)) && f.rotation == face_rotation(i)
}

/// The model records of a sequence of faces, in order.
pub open spec fn model_data_of(fs: Seq<FaceInstance>) -> Seq<FaceInstanceModelRaw> {
    fs.map_values(|f: FaceInstance| model_of(f))
}

/// The visibility words of a sequence of faces, in order.
pub open spec fn render_data_of(fs: Seq<FaceInstance>) -> Seq<FaceInstanceRenderRaw> {
    fs.map_values(|f: FaceInstance| render_of(f))
}

/// What `set_faces` is told of face `k`: back, left, front, right, up, down.
pub open spec fn face_arg(
    k: int,
    front: Option<bool>,
    back: Option<bool>,
    left: Option<bool>,
    right: Option<bool>,
    up: Option<bool>,
    down: Option<bool>,
) -> Option<bool> {
    if k == 0 {
        back
    } else if k == 1 {
        left
    } else if k == 2 {
        front
    } else if k == 3 {
        right
    } else if k == 4 {
        up
    } else {
        down
    }
}

/// The visibility of a face after being told `occluded` (nothing when absent).
pub open spec fn render_after(render: bool, occluded: Option<bool>) -> bool {
    match occluded {
        Some(o) => !o,
        None => render,
    }
}

pub struct Voxel {
    pub instances: Vec<FaceInstance>,
    pub position: Position,
    pub instance_model_data: Vec<FaceInstanceModelRaw>,
    pub instance_render_data: Vec<FaceInstanceRenderRaw>,
}

impl Voxel {
    /// The six faces stand in their fixed order around `position`.
    pub open spec fn faces_wf(&self) -> bool {
        &&& self.instances@.len() == NUM_INSTANCES_PER_CUBE
        &&& forall|i: int| 0 <= i < 6 ==> is_face(#[trigger] self.instances@[i], self.position@, i)
    }

    /// The cached model records.
    pub open spec fn cached_model(&self) -> Seq<FaceInstanceModelRaw> {
        self.instance_model_data@
    }

    /// The cached visibility words; stale after `set_faces` until
    /// `update_instance_data` runs.
    pub open spec fn cached_render(&self) -> Seq<FaceInstanceRenderRaw> {
        self.instance_render_data@
    }

    pub open spec fn wf(&self) -> bool {
        &&& self.faces_wf()
        &&& self.cached_model() == model_data_of(self.instances@)
        &&& self.cached_render().len() == 6
    }

    /// The cached visibility words agree with the faces.
    pub open spec fn is_fresh(&self) -> bool {
        self.cached_render() == render_data_of(self.instances@)
    }

    /// A voxel at `position` with all six faces drawn.
    pub fn new(position: &Position) -> (r: Self)
        requires
            position.x < i64::MAX,
            position.y < i64::MAX,
            position.z < i64::MAX,
        ensures
            r.wf(),
            r.is_fresh(),
            r.position == *position,
            forall|i: int| 0 <= i < 6 ==> (#[trigger] r.instances@[i]).render,
    {
        let instances = Self::gen_instances(position);
        let (instance_model_data, instance_render_data) = Self::raw_data(&instances);
        Self { instances, position: *position, instance_model_data, instance_render_data }
    }

    /// Refreshes the cached records from the faces.
    pub fn update_instance_data(&mut self)
        requires
            old(self).wf(),
        ensures
            final(self).wf(),
            final(self).is_fresh(),
            final(self).instances == old(self).instances,
            final(self).position == old(self).position,
    {
        let (model, render) = Self::raw_data(&self.instances);
        self.instance_model_data = model;
        self.instance_render_data = render;
    }

    fn raw_data(instances: &Vec<FaceInstance>) -> (r: (
        Vec<FaceInstanceModelRaw>,
        Vec<FaceInstanceRenderRaw>,
    ))
        ensures
            r.0@ == model_data_of(instances@),
            r.1@ == render_data_of(instances@),
    {
        let mut model: Vec<FaceInstanceModelRaw> = Vec::new();
        let mut render: Vec<FaceInstanceRenderRaw> = Vec::new();
        let mut i: usize = 0;
        while i < instances.len()
            invariant
                i <= instances@.len(),
                model@ == model_data_of(instances@.subrange(0, i as int)),
                render@ == render_data_of(instances@.subrange(0, i as int)),
            decreases instances@.len() - i,
        {
            let (m, v) = instances[i].to_raw();
            model.push(m);
            render.push(v);
            assert(instances@.subrange(0, i + 1) =~= instances@.subrange(0, i as int).push(
                instances@[i as int],
            ));
            i = i + 1;
        }
        assert(instances@.subrange(0, i as int) =~= instances@);
        (model, render)
    }

    fn gen_instances(position: &Position) -> (r: Vec<FaceInstance>)
        requires
            position.x < i64::MAX,
            position.y < i64::MAX,
            position.z < i64::MAX,
        ensures
            r@.len() == 6,
            forall|i: int| 0 <= i < 6 ==> is_face(#[trigger] r@[i], position@, i) && r@[i].render,
    {
        let mut r: Vec<FaceInstance> = Vec::new();
        let mut i: u32 = 0;
        while i < NUM_INSTANCES_PER_CUBE
            invariant
                i <= 6,
                r@.len() == i,
                position.x < i64::MAX,
                position.y < i64::MAX,
                position.z < i64::MAX,
                forall|j: int| 0 <= j < i ==> is_face(#[trigger] r@[j], position@, j) && r@[j].render,
            decreases 6 - i,
        {
            r.push(Self::gen_instance(i, position));
            i = i + 1;
        }
        r
    }

    fn gen_instance(index: u32, position: &Position) -> (r: FaceInstance)
        requires
            index < 6,
            position.x < i64::MAX,
            position.y < i64::MAX,
            position.z < i64::MAX,
        ensures
            is_face(r, position@, index as int),
            r.render,
    {
        let x = position.x;
        let y = position.y;
        let z = position.z;
        let (position, rotation) = match index {
            0 => (Position { x, y, z }, Rotation { axis: Axis::Z, degrees: 0 }),
            1 => (Position { x, y, z: z + 1 }, Rotation { axis: Axis::Y, degrees: 90 }),
            2 => (Position { x: x + 1, y, z: z + 1 }, Rotation { axis: Axis::Y, degrees: 180 }),
            3 => (Position { x: x + 1, y, z }, Rotation { axis: Axis::Y, degrees: 270 }),
            4 => (Position { x, y: y + 1, z }, Rotation { axis: Axis::X, degrees: 90 }),
            _ => (Position { x: x + 1, y, z: z + 1 }, Rotation { axis: Axis::X, degrees: 270 }),
        };
        FaceInstance { position, rotation, render: true }
    }

    /// Sets each face whose argument is present to be drawn exactly when it is
    /// not occluded; the cached records are left as they were.
    pub fn set_faces(
        &mut self,
        front: Option<bool>,
        back: Option<bool>,
        left: Option<bool>,
        right: Option<bool>,
        up: Option<bool>,
        down: Option<bool>,
    )
        requires
            old(self).wf(),
        ensures
            final(self).wf(),
            final(self).position == old(self).position,
            final(self).cached_render() == old(self).cached_render(),
            forall|k: int|
                0 <= k < 6 ==> (#[trigger] final(self).instances@[k]) == (FaceInstance {
                    render: render_after(
                        old(self).instances@[k].render,
                        face_arg(k, front, back, left, right, up, down),
                    ),
                    ..old(self).instances@[k]
                }),
    {
        self.set_face(2, front);
        self.set_face(0, back);
        self.set_face(1, left);
        self.set_face(3, right);
        self.set_face(4, up);
        self.set_face(5, down);
    }

    fn set_face(&mut self, k: usize, occluded: Option<bool>)
        requires
            old(self).wf(),
            k < 6,
        ensures
            final(self).wf(),
            final(self).position == old(self).position,
            final(self).cached_render() == old(self).cached_render(),
            final(self).instances@ == old(self).instances@.update(
                k as int,
                FaceInstance {
                    render: render_after(old(self).instances@[k as int].render, occluded),
                    ..old(self).instances@[k as int]
                },
            ),
    {
        if let Some(o) = occluded {
            self.instances[k].render = !o;
        }
        assert(model_data_of(self.instances@) =~= model_data_of(old(self).instances@));
        assert(self.instances@ =~= old(self).instances@.update(
            k as int,
            FaceInstance {
                render: render_after(old(self).instances@[k as int].render, occluded),
                ..old(self).instances@[k as int]
            },
        ));
    }

    /// A copy of the cached model records and visibility words.
    pub fn get_data(&self) -> (r: (Vec<FaceInstanceModelRaw>, Vec<FaceInstanceRenderRaw>))
        requires
            self.wf(),
        ensures
            r.0@ == self.cached_model(),
            r.1@ == self.cached_render(),
            r.0@.len() == 6,
            r.1@.len() == 6,
            forall|k: int|
                0 <= k < 6 ==> {
                    &&& (#[trigger] r.0@[k]).translation@ == offset_by(
                        self.position@,
                        face_offset(k),
                    )
                    &&& r.0@[k].rotation == face_rotation(k)
                },
    {
        (self.instance_model_data.clone(), self.instance_render_data.clone())
    }
}

} // verus!
