//! The voxel world: a dense square grid on the X-Z plane, the neighbour scan
//! that decides which faces are occluded, and the flat per-face instance data
//! of the whole grid in voxel-then-face order.
use vstd::prelude::*;

use crate::face::{face_direction, offset_by, FaceInstanceModelRaw, FaceInstanceRenderRaw, Position};
use crate::voxel::{is_face, Voxel};

verus! {

/// `s` is the side of the smallest square grid that holds `n` voxels.
pub open spec fn is_ceil_sqrt(s: int, n: int) -> bool {
    &&& 0 <= s
    &&& n <= s * s
    &&& (s == 0 || (s - 1) * (s - 1) < n)
}

/// The ceiling of the square root of `n`.
pub open spec fn ceil_sqrt(n: int) -> int {
    choose|s: int| is_ceil_sqrt(s, n)
}

/// Where the `i`-th voxel of a grid of side `side` stands: rows of constant
/// `z`, each running along `x`.
pub open spec fn grid_position(side: int, i: int) -> (int, int, int) {
    (i % side, 0, i / side)
}

/// `voxels` is the grid built for a request of `n` voxels.
pub open spec fn is_grid(voxels: Seq<Voxel>, n: int) -> bool {
    let side = ceil_sqrt(n);
    &&& voxels.len() == side * side
    &&& forall|i: int| 0 <= i < voxels.len() ==> (#[trigger] voxels[i]).position@ == grid_position(side, i)
}

/// Some voxel of `voxels` stands at `p`.
pub open spec fn occupied(voxels: Seq<Voxel>, p: (int, int, int)) -> bool {
    exists|j: int| 0 <= j < voxels.len() && (#[trigger] voxels[j]).position@ == p
}

/// The directions of a neighbour list: front (+z), back (-z), left (-x),
/// right (+x), up (+y), down (-y).
pub open spec fn neighbour_direction(d: int) -> (int, int, int) {
    if d == 0 {
        (0, 0, 1)
    } else if d == 1 {
        (0, 0, -1)
    } else if d == 2 {
        (-1, 0, 0)
    } else if d == 3 {
        (1, 0, 0)
    } else if d == 4 {
        (0, 1, 0)
    } else {
        (0, -1, 0)
    }
}

/// For each direction of a neighbour list, whether a voxel stands next to `p`.
pub open spec fn neighbours_of(voxels: Seq<Voxel>, p: (int, int, int)) -> Seq<bool> {
    Seq::new(6, |d: int| occupied(voxels, offset_by(p, neighbour_direction(d))))
}

/// Face `k` of a voxel at `p` is covered by a neighbour.
pub open spec fn face_hidden(voxels: Seq<Voxel>, p: (int, int, int), k: int) -> bool {
    occupied(voxels, offset_by(p, face_direction(k)))
}

/// Where the direction of face `k` stands in a neighbour list.
pub open spec fn neighbour_index(k: int) -> int {
    if k == 0 {
        1
    } else if k == 1 {
        2
    } else if k == 2 {
        0
    } else {
        k
    }
}

/// The face on the other side of the cube from face `k`.
pub open spec fn opposite_face(k: int) -> int {
    if k == 0 {
        2
    } else if k == 1 {
        3
    } else if k == 2 {
        0
    } else if k == 3 {
        1
    } else if k == 4 {
        5
    } else {
        4
    }
}

/// The four bytes of word `i` are all zero.
pub open spec fn word_is_zero(bytes: Seq<u8>, i: int) -> bool {
    &&& bytes[4 * i] == 0
    &&& bytes[4 * i + 1] == 0
    &&& bytes[4 * i + 2] == 0
    &&& bytes[4 * i + 3] == 0
}

/// Every voxel is well formed.
pub open spec fn all_wf(voxels: Seq<Voxel>) -> bool {
    forall|i: int| 0 <= i < voxels.len() ==> (#[trigger] voxels[i]).wf()
}

/// `after` is `before` once each face has been set by the neighbour scan of
/// `before` and each cache refreshed.
pub open spec fn culled(before: Seq<Voxel>, after: Seq<Voxel>) -> bool {
    &&& after.len() == before.len()
    &&& all_wf(after)
    &&& forall|i: int|
        0 <= i < after.len() ==> {
            &&& (#[trigger] after[i]).position == before[i].position
            &&& after[i].is_fresh()
            &&& forall|k: int|
                0 <= k < 6 ==> (#[trigger] after[i].instances@[k]).render == !face_hidden(
                    before,
                    before[i].position@,
                    k,
                )
        }
}

/// The cached model records of all voxels, in order.
pub open spec fn flatten_models(voxels: Seq<Voxel>) -> Seq<FaceInstanceModelRaw>
    decreases voxels.len(),
{
    if voxels.len() == 0 {
        Seq::empty()
    } else {
        flatten_models(voxels.drop_last()) + voxels.last().cached_model()
    }
}

/// The cached visibility words of all voxels, in order.
pub open spec fn flatten_renders(voxels: Seq<Voxel>) -> Seq<FaceInstanceRenderRaw>
    decreases voxels.len(),
{
    if voxels.len() == 0 {
        Seq::empty()
    } else {
        flatten_renders(voxels.drop_last()) + voxels.last().cached_render()
    }
}

proof fn lemma_ceil_sqrt_unique(s: int, n: int)
    requires
        is_ceil_sqrt(s, n),
    ensures
        ceil_sqrt(n) == s,
{
    let t = ceil_sqrt(n);
    assert(is_ceil_sqrt(t, n));
    if t < s {
        assert((s - 1) * (s - 1) >= t * t) by (nonlinear_arith)
            requires
                0 <= t <= s - 1,
        ;
    } else if s < t {
        assert((t - 1) * (t - 1) >= s * s) by (nonlinear_arith)
            requires
                0 <= s <= t - 1,
        ;
    }
}

/// The side of the square grid that a request of `voxel_number` voxels gets.
pub fn grid_side(voxel_number: u32) -> (s: u32)
    ensures
        s as int == ceil_sqrt(voxel_number as int),
        is_ceil_sqrt(s as int, voxel_number as int),
        s <= 65536,
{
    let mut s: u32 = 0;
    while (s as u64) * (s as u64) < voxel_number as u64
        invariant
            s <= 65536,
            s * s <= 65536 * 65536,
            s == 0 || (s - 1) * (s - 1) < voxel_number,
        decreases 65536 - s,
    {
        assert(s < 65536) by (nonlinear_arith)
            requires
                s * s < voxel_number,
                voxel_number <= u32::MAX,
        ;
        assert((s + 1) * (s + 1) <= 65536 * 65536) by (nonlinear_arith)
            requires
                s < 65536,
        ;
        s = s + 1;
    }
    proof {
        lemma_ceil_sqrt_unique(s as int, voxel_number as int);
    }
    s
}

pub struct VoxelManger {
    pub voxels: Vec<Voxel>,
    pub instances_model_data: Vec<FaceInstanceModelRaw>,
    pub instances_render_data: Vec<FaceInstanceRenderRaw>,
}

impl VoxelManger {
    pub open spec fn wf(&self) -> bool {
        all_wf(self.voxels@)
    }

    /// The aggregated instance data is the concatenation of every voxel's cache.
    pub open spec fn buffers_fresh(&self) -> bool {
        &&& self.instances_model_data@ == flatten_models(self.voxels@)
        &&& self.instances_render_data@ == flatten_renders(self.voxels@)
    }

    fn gen_voxels(voxel_number: u32) -> (r: Vec<Voxel>)
        requires
            voxel_number <= 65536,
        ensures
            r@.len() == voxel_number * voxel_number,
            all_wf(r@),
            forall|i: int|
                0 <= i < r@.len() ==> {
                    &&& (#[trigger] r@[i]).position@ == grid_position(voxel_number as int, i)
                    &&& r@[i].is_fresh()
                    &&& forall|k: int| 0 <= k < 6 ==> (#[trigger] r@[i].instances@[k]).render
                },
    {
        let side = voxel_number;
        let mut r: Vec<Voxel> = Vec::new();
        let mut z: u32 = 0;
        while z < side
            invariant
                side <= 65536,
                z <= side,
                r@.len() == z * side,
                all_wf(r@),
                forall|i: int|
                    0 <= i < r@.len() ==> {
                        &&& (#[trigger] r@[i]).position@ == grid_position(side as int, i)
                        &&& r@[i].is_fresh()
                        &&& forall|k: int| 0 <= k < 6 ==> (#[trigger] r@[i].instances@[k]).render
                    },
            decreases side - z,
        {
            let mut x: u32 = 0;
            while x < side
                invariant
                    side <= 65536,
                    z < side,
                    x <= side,
                    r@.len() == z * side + x,
                    all_wf(r@),
                    forall|i: int|
                        0 <= i < r@.len() ==> {
                            &&& (#[trigger] r@[i]).position@ == grid_position(side as int, i)
                            &&& r@[i].is_fresh()
                            &&& forall|k: int|
                                0 <= k < 6 ==> (#[trigger] r@[i].instances@[k]).render
                        },
                decreases side - x,
            {
                let v = Voxel::new(&Position { x: x as i64, y: 0, z: z as i64 });
                proof {
                    vstd::arithmetic::div_mod::lemma_fundamental_div_mod_converse(
                        z * side + x,
                        side as int,
                        z as int,
                        x as int,
                    );
                }
                r.push(v);
                x = x + 1;
            }
            assert((z + 1) * side == z * side + side) by (nonlinear_arith);
            z = z + 1;
        }
        r
    }

    /// A grid of `ceil(sqrt(voxel_number))` voxels a side, every face drawn,
    /// with the aggregated instance data built from it.
    pub fn new(voxel_number: u32) -> (r: Self)
        ensures
            r.wf(),
            r.buffers_fresh(),
            is_grid(r.voxels@, voxel_number as int),
            forall|i: int|
                0 <= i < r.voxels@.len() ==> {
                    &&& (#[trigger] r.voxels@[i]).is_fresh()
                    &&& forall|k: int| 0 <= k < 6 ==> (#[trigger] r.voxels@[i].instances@[k]).render
                },
    {
        let voxels = Self::gen_voxels(grid_side(voxel_number));
        let (instances_model_data, instances_render_data) = Self::aggregate(&voxels);
        Self { voxels, instances_model_data, instances_render_data }
    }

    /// The caches of all voxels, concatenated in voxel order.
    fn aggregate(voxels: &Vec<Voxel>) -> (r: (Vec<FaceInstanceModelRaw>, Vec<FaceInstanceRenderRaw>))
        requires
            all_wf(voxels@),
        ensures
            r.0@ == flatten_models(voxels@),
            r.1@ == flatten_renders(voxels@),
    {
        let mut model: Vec<FaceInstanceModelRaw> = Vec::new();
        let mut render: Vec<FaceInstanceRenderRaw> = Vec::new();
        let mut i: usize = 0;
        while i < voxels.len()
            invariant
                i <= voxels@.len(),
                all_wf(voxels@),
                model@ == flatten_models(voxels@.subrange(0, i as int)),
                render@ == flatten_renders(voxels@.subrange(0, i as int)),
            decreases voxels@.len() - i,
        {
            let (mut m, mut v) = voxels[i].get_data();
            proof {
                let next = voxels@.subrange(0, i + 1);
                assert(next.drop_last() =~= voxels@.subrange(0, i as int));
                assert(next.last() == voxels@[i as int]);
            }
            model.append(&mut m);
            render.append(&mut v);
            i = i + 1;
        }
        assert(voxels@.subrange(0, i as int) =~= voxels@);
        (model, render)
    }

    /// Rebuilds the aggregated instance data from the voxels' caches.
    pub fn update_buffers(self) -> (r: Self)
        requires
            self.wf(),
        ensures
            r.wf(),
            r.voxels@ == self.voxels@,
            r.buffers_fresh(),
    {
        let (instances_model_data, instances_render_data) = Self::aggregate(&self.voxels);
        Self { voxels: self.voxels, instances_model_data, instances_render_data }
    }

    /// Whether some voxel stands one step from `v` in direction `d` of a
    /// neighbour list.
    fn any_at(&self, v: &Position, d: usize) -> (r: bool)
        requires
            d < 6,
        ensures
            r == occupied(self.voxels@, offset_by(v@, neighbour_direction(d as int))),
    {
        let (dx, dy, dz) = direction_delta(d);
        let mut i: usize = 0;
        while i < self.voxels.len()
            invariant
                i <= self.voxels@.len(),
                (dx as int, dy as int, dz as int) == neighbour_direction(d as int),
                -1 <= dx <= 1,
                -1 <= dy <= 1,
                -1 <= dz <= 1,
                forall|j: int|
                    0 <= j < i ==> (#[trigger] self.voxels@[j]).position@ != offset_by(
                        v@,
                        neighbour_direction(d as int),
                    ),
            decreases self.voxels@.len() - i,
        {
            let w = &self.voxels[i].position;
            if steps_to(w.x, v.x, dx) && steps_to(w.y, v.y, dy) && steps_to(w.z, v.z, dz) {
                return true;
            }
            i = i + 1;
        }
        false
    }

    /// For `v`, whether a voxel stands next to it: front, back, left, right,
    /// up, down.
    pub fn get_neighbour(&self, v: &Voxel) -> (r: Vec<bool>)
        ensures
            r@ == neighbours_of(self.voxels@, v.position@),
    {
        let mut r: Vec<bool> = Vec::new();
        let mut d: usize = 0;
        while d < 6
            invariant
                d <= 6,
                r@.len() == d,
                forall|e: int|
                    0 <= e < d ==> r@[e] == occupied(
                        self.voxels@,
                        offset_by(v.position@, neighbour_direction(e)),
                    ),
            decreases 6 - d,
        {
            r.push(self.any_at(&v.position, d));
            d = d + 1;
        }
        assert(r@ =~= neighbours_of(self.voxels@, v.position@));
        r
    }

    /// The neighbour list of every voxel, in voxel order.
    pub fn get_neighbours(&self) -> (r: Vec<Vec<bool>>)
        ensures
            r@.len() == self.voxels@.len(),
            forall|i: int|
                0 <= i < r@.len() ==> (#[trigger] r@[i])@ == neighbours_of(
                    self.voxels@,
                    self.voxels@[i].position@,
                ),
    {
        let mut ns: Vec<Vec<bool>> = Vec::new();
        let mut i: usize = 0;
        while i < self.voxels.len()
            invariant
                i <= self.voxels@.len(),
                ns@.len() == i,
                forall|j: int|
                    0 <= j < i ==> (#[trigger] ns@[j])@ == neighbours_of(
                        self.voxels@,
                        self.voxels@[j].position@,
                    ),
            decreases self.voxels@.len() - i,
        {
            ns.push(self.get_neighbour(&self.voxels[i]));
            i = i + 1;
        }
        ns
    }

    /// Hides every face that a neighbour covers and draws every other one,
    /// refreshing each voxel's cache. The aggregated data is left as it was
    /// until `update_buffers` runs.
    pub fn update_map(self) -> (r: Self)
        requires
            self.wf(),
        ensures
            r.wf(),
            culled(self.voxels@, r.voxels@),
            r.instances_model_data == self.instances_model_data,
            r.instances_render_data == self.instances_render_data,
    {
        let ns = self.get_neighbours();
        let mut r = self;
        let ghost before = r.voxels@;
        let ghost model = r.instances_model_data;
        let ghost render = r.instances_render_data;
        let mut index: usize = 0;
        while index < r.voxels.len()
            invariant
                index <= r.voxels@.len(),
                r.voxels@.len() == before.len(),
                r.instances_model_data == model,
                r.instances_render_data == render,
                ns@.len() == before.len(),
                forall|j: int|
                    0 <= j < ns@.len() ==> (#[trigger] ns@[j])@ == neighbours_of(
                        before,
                        before[j].position@,
                    ),
                all_wf(r.voxels@),
                forall|j: int| index <= j < before.len() ==> r.voxels@[j] == before[j],
                forall|j: int|
                    0 <= j < index ==> {
                        &&& (#[trigger] r.voxels@[j]).position == before[j].position
                        &&& r.voxels@[j].is_fresh()
                        &&& forall|k: int|
                            0 <= k < 6 ==> (#[trigger] r.voxels@[j].instances@[k]).render
                                == !face_hidden(before, before[j].position@, k)
                    },
            decreases r.voxels@.len() - index,
        {
            let n = &ns[index];
            assert(n@ == neighbours_of(before, before[index as int].position@));
            r.voxels[index].set_faces(
                Some(n[0]),
                Some(n[1]),
                Some(n[2]),
                Some(n[3]),
                Some(n[4]),
                Some(n[5]),
            );
            r.voxels[index].update_instance_data();
            index = index + 1;
        }
        r
    }

    /// The end of the instance range of the single draw: six faces per voxel.
    pub fn instance_count(&self) -> (r: u32)
        requires
            self.voxels@.len() * 6 <= u32::MAX,
        ensures
            r == self.voxels@.len() * 6,
    {
        self.voxels.len() as u32 * 6
    }

    /// The aggregated visibility words as the bytes of the instance buffer,
    /// four per word in the machine's byte order.
    pub fn render_bytes(&self) -> (r: Vec<u8>)
        ensures
            r@.len() == 4 * self.instances_render_data@.len(),
            forall|i: int|
                0 <= i < self.instances_render_data@.len() ==> (
                #[trigger] self.instances_render_data@[i].render == 0 <==> word_is_zero(r@, i)),
    {
        let mut words: Vec<u32> = Vec::new();
        let mut i: usize = 0;
        while i < self.instances_render_data.len()
            invariant
                i <= self.instances_render_data@.len(),
                words@.len() == i,
                forall|j: int|
                    0 <= j < i ==> words@[j] == (#[trigger] self.instances_render_data@[j]).render,
            decreases self.instances_render_data@.len() - i,
        {
            words.push(self.instances_render_data[i].render);
            i = i + 1;
        }
        words_to_bytes(words.as_slice())
    }
}

/// Relies on bytemuck::cast_slice from `u32` to `u8`, which reinterprets the
/// words in place (the alignment of `u8` never fails): four bytes per word, so
/// a word is zero exactly when its four bytes are.
#[verifier::external_body]
fn words_to_bytes(words: &[u32]) -> (r: Vec<u8>)
    ensures
        r@.len() == 4 * words@.len(),
        forall|i: int| 0 <= i < words@.len() ==> (#[trigger] words@[i] == 0 <==> word_is_zero(r@, i)),
{
    bytemuck::cast_slice::<u32, u8>(words).to_vec()
}

/// `w == v + s` for a step `s` of -1, 0 or 1, without overflow.
fn steps_to(w: i64, v: i64, s: i64) -> (r: bool)
    requires
        -1 <= s <= 1,
    ensures
        r == (w as int == v as int + s as int),
{
    if s == 0 {
        w == v
    } else if s > 0 {
        w > v && w - 1 == v
    } else {
        w < v && w + 1 == v
    }
}

/// The step of direction `d` of a neighbour list.
fn direction_delta(d: usize) -> (r: (i64, i64, i64))
    requires
        d < 6,
    ensures
        (r.0 as int, r.1 as int, r.2 as int) == neighbour_direction(d as int),
{
    match d {
        0 => (0, 0, 1),
        1 => (0, 0, -1),
        2 => (-1, 0, 0),
        3 => (1, 0, 0),
        4 => (0, 1, 0),
        _ => (0, -1, 0),
    }
}

/// A request for `side * side` voxels gets exactly that many: one at every
/// point (x, 0, z) with x and z in [0, side), and none anywhere else.
pub proof fn lemma_square_grid(side: nat, voxels: Seq<Voxel>)
    requires
        is_grid(voxels, (side * side) as int),
    ensures
        ceil_sqrt((side * side) as int) == side,
        voxels.len() == side * side,
        forall|x: int, z: int| 0 <= x < side && 0 <= z < side ==> occupied(voxels, (x, 0int, z)),
        forall|i: int|
            0 <= i < voxels.len() ==> {
                &&& 0 <= (#[trigger] voxels[i]).position.x < side
                &&& voxels[i].position.y == 0
                &&& 0 <= voxels[i].position.z < side
            },
{
    let s = side as int;
    if s > 0 {
        assert((s - 1) * (s - 1) < s * s) by (nonlinear_arith)
            requires
                s > 0,
        ;
    }
    lemma_ceil_sqrt_unique(s, s * s);
    assert forall|x: int, z: int| 0 <= x < side && 0 <= z < side implies occupied(
        voxels,
        (x, 0int, z),
    ) by {
        let j = z * s + x;
        assert(0 <= j < s * s) by (nonlinear_arith)
            requires
                0 <= x < s,
                0 <= z < s,
                j == z * s + x,
        ;
        vstd::arithmetic::div_mod::lemma_fundamental_div_mod_converse(j, s, z, x);
        assert(voxels[j].position@ == (x, 0int, z));
    }
    assert forall|i: int| 0 <= i < voxels.len() implies {
        &&& 0 <= (#[trigger] voxels[i]).position.x < side
        &&& voxels[i].position.y == 0
        &&& 0 <= voxels[i].position.z < side
    } by {
        assert(s > 0) by (nonlinear_arith)
            requires
                0 <= i < s * s,
                s >= 0,
        ;
        vstd::arithmetic::div_mod::lemma_fundamental_div_mod(i, s);
        assert(i / s < s) by (nonlinear_arith)
            requires
                i == s * (i / s) + i % s,
                0 <= i % s < s,
                i < s * s,
                s > 0,
        ;
        assert(i / s >= 0) by (nonlinear_arith)
            requires
                i == s * (i / s) + i % s,
                0 <= i % s < s,
                i >= 0,
                s > 0,
        ;
    }
}

/// Two voxels one step apart along an axis each find the other in their
/// neighbour lists, and after culling the two faces between them are hidden.
pub proof fn lemma_adjacent_faces_hidden(
    before: Seq<Voxel>,
    after: Seq<Voxel>,
    i: int,
    j: int,
    k: int,
)
    requires
        culled(before, after),
        0 <= i < before.len(),
        0 <= j < before.len(),
        0 <= k < 6,
        before[j].position@ == offset_by(before[i].position@, face_direction(k)),
    ensures
        neighbours_of(before, before[i].position@)[neighbour_index(k)],
        neighbours_of(before, before[j].position@)[neighbour_index(opposite_face(k))],
        !after[i].instances@[k].render,
        !after[j].instances@[opposite_face(k)].render,
{
    let pi = before[i].position@;
    let pj = before[j].position@;
    assert(offset_by(pj, face_direction(opposite_face(k))) == pi);
    assert(occupied(before, offset_by(pi, face_direction(k))));
    assert(occupied(before, offset_by(pj, face_direction(opposite_face(k)))));
    assert(after[i].instances@[k].render == !face_hidden(before, pi, k));
    assert(after[j].instances@[opposite_face(k)].render == !face_hidden(
        before,
        pj,
        opposite_face(k),
    ));
}

/// A face with no voxel in front of it is still drawn after culling.
pub proof fn lemma_open_face_drawn(before: Seq<Voxel>, after: Seq<Voxel>, i: int, k: int)
    requires
        culled(before, after),
        0 <= i < before.len(),
        0 <= k < 6,
        !occupied(before, offset_by(before[i].position@, face_direction(k))),
    ensures
        after[i].instances@[k].render,
{
    assert(after[i].instances@[k].render == !face_hidden(before, before[i].position@, k));
}

/// The aggregated data holds six entries per voxel, entry `e` being face
/// `e % 6` of voxel `e / 6`.
pub proof fn lemma_aggregate_layout(voxels: Seq<Voxel>)
    requires
        all_wf(voxels),
    ensures
        flatten_models(voxels).len() == 6 * voxels.len(),
        flatten_renders(voxels).len() == 6 * voxels.len(),
        forall|e: int|
            0 <= e < 6 * voxels.len() ==> {
                &&& #[trigger] flatten_models(voxels)[e] == voxels[e / 6].cached_model()[e % 6]
                &&& flatten_renders(voxels)[e] == voxels[e / 6].cached_render()[e % 6]
            },
    decreases voxels.len(),
{
    if voxels.len() > 0 {
        let init = voxels.drop_last();
        let n = voxels.len() - 1;
        assert(all_wf(init)) by {
            assert forall|i: int| 0 <= i < init.len() implies (#[trigger] init[i]).wf() by {
                assert(init[i] == voxels[i]);
            }
        }
        lemma_aggregate_layout(init);
        assert(voxels[n].wf());
        assert forall|e: int| 0 <= e < 6 * voxels.len() implies {
            &&& #[trigger] flatten_models(voxels)[e] == voxels[e / 6].cached_model()[e % 6]
            &&& flatten_renders(voxels)[e] == voxels[e / 6].cached_render()[e % 6]
        } by {
            let last = voxels[n];
            assert(voxels.last() == last);
            assert(last.cached_model().len() == 6);
            assert(last.cached_render().len() == 6);
            assert(flatten_models(voxels) == flatten_models(init) + last.cached_model());
            assert(flatten_renders(voxels) == flatten_renders(init) + last.cached_render());
            if e < 6 * n {
                assert(0 <= e / 6 < n);
                assert(init[e / 6] == voxels[e / 6]);
            } else {
                vstd::arithmetic::div_mod::lemma_fundamental_div_mod_converse(e, 6, n, e - 6 * n);
            }
        }
    }
}

/// Scanning and culling a second time on an unchanged grid finds the same
/// neighbours and leaves every face, and every cache, as the first pass did.
pub proof fn lemma_culling_idempotent(first: Seq<Voxel>, once: Seq<Voxel>, twice: Seq<Voxel>)
    requires
        all_wf(first),
        culled(first, once),
        culled(once, twice),
    ensures
        twice.len() == once.len(),
        forall|i: int|
            0 <= i < once.len() ==> neighbours_of(once, (#[trigger] once[i]).position@)
                == neighbours_of(first, first[i].position@),
        forall|i: int|
            0 <= i < once.len() ==> {
                &&& (#[trigger] twice[i]).instances@ == once[i].instances@
                &&& twice[i].cached_render() == once[i].cached_render()
                &&& twice[i].cached_model() == once[i].cached_model()
            },
{
    assert forall|p: (int, int, int)| occupied(once, p) == occupied(first, p) by {
        if occupied(once, p) {
            let j = choose|j: int| 0 <= j < once.len() && (#[trigger] once[j]).position@ == p;
            assert(first[j].position == once[j].position);
        }
        if occupied(first, p) {
            let j = choose|j: int| 0 <= j < first.len() && (#[trigger] first[j]).position@ == p;
            assert(first[j].position == once[j].position);
        }
    }
    assert forall|i: int| 0 <= i < once.len() implies neighbours_of(
        once,
        (#[trigger] once[i]).position@,
    ) == neighbours_of(first, first[i].position@) by {
        assert(neighbours_of(once, once[i].position@) =~= neighbours_of(
            first,
            first[i].position@,
        ));
    }
    assert forall|i: int| 0 <= i < once.len() implies {
        &&& (#[trigger] twice[i]).instances@ == once[i].instances@
        &&& twice[i].cached_render() == once[i].cached_render()
        &&& twice[i].cached_model() == once[i].cached_model()
    } by {
        assert(twice[i].wf());
        assert(once[i].wf());
        assert forall|k: int| 0 <= k < 6 implies #[trigger] twice[i].instances@[k]
            == once[i].instances@[k] by {
            assert(twice[i].instances@[k].render == !face_hidden(once, once[i].position@, k));
            assert(once[i].instances@[k].render == !face_hidden(first, first[i].position@, k));
            assert(is_face(twice[i].instances@[k], twice[i].position@, k));
            assert(is_face(once[i].instances@[k], once[i].position@, k));
        }
        assert(twice[i].instances@ =~= once[i].instances@);
    }
}

} // verus!
