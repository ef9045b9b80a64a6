use stonehearth::bundles::BundleManager;
use stonehearth::face::{indices, Axis, FaceInstance, Position, Rotation};
use stonehearth::voxel::Voxel;
use stonehearth::voxel_manager::{grid_side, VoxelManger};

fn pos(x: i64, y: i64, z: i64) -> Position {
    Position { x, y, z }
}

fn renders(v: &Voxel) -> Vec<bool> {
    v.instances.iter().map(|f| f.render).collect()
}

fn find(m: &VoxelManger, p: Position) -> usize {
    m.voxels.iter().position(|v| v.position == p).unwrap()
}

#[test]
fn grid_side_is_ceiling_square_root() {
    assert_eq!(grid_side(0), 0);
    assert_eq!(grid_side(1), 1);
    assert_eq!(grid_side(2), 2);
    assert_eq!(grid_side(4), 2);
    assert_eq!(grid_side(5), 3);
    assert_eq!(grid_side(9), 3);
    assert_eq!(grid_side(10), 4);
    assert_eq!(grid_side(10_000), 100);
    assert_eq!(grid_side(10_001), 101);
    assert_eq!(grid_side(u32::MAX), 65536);
}

#[test]
fn square_request_fills_every_grid_point() {
    for side in 0..6i64 {
        let m = VoxelManger::new((side * side) as u32);
        assert_eq!(m.voxels.len() as i64, side * side);
        for z in 0..side {
            for x in 0..side {
                let i = (z * side + x) as usize;
                assert_eq!(m.voxels[i].position, pos(x, 0, z));
            }
        }
    }
}

#[test]
fn non_square_request_rounds_side_up() {
    let m = VoxelManger::new(5);
    assert_eq!(m.voxels.len(), 9);
    assert_eq!(m.voxels[8].position, pos(2, 0, 2));
}

#[test]
fn empty_request_gives_empty_world() {
    let m = VoxelManger::new(0);
    assert!(m.voxels.is_empty());
    assert!(m.instances_model_data.is_empty());
    assert!(m.instances_render_data.is_empty());
    let m = m.update_map().update_buffers();
    assert!(m.voxels.is_empty());
    assert!(m.render_bytes().is_empty());
}

#[test]
fn fresh_world_draws_every_face() {
    let m = VoxelManger::new(4);
    for v in &m.voxels {
        assert_eq!(renders(v), vec![true; 6]);
    }
    assert_eq!(m.instances_render_data.len(), 24);
    assert!(m.instances_render_data.iter().all(|r| r.render == 1));
}

#[test]
fn two_by_two_grid_culls_inner_faces() {
    let m = VoxelManger::new(4).update_map();
    let v = &m.voxels[find(&m, pos(0, 0, 0))];
    // back (-z), left (-x), front (+z), right (+x), up, down
    assert_eq!(renders(v), vec![true, true, false, false, true, true]);
    let v = &m.voxels[find(&m, pos(1, 0, 1))];
    assert_eq!(renders(v), vec![false, false, true, true, true, true]);
    let v = &m.voxels[find(&m, pos(1, 0, 0))];
    assert_eq!(renders(v), vec![true, false, false, true, true, true]);
}

#[test]
fn adjacent_voxels_hide_shared_faces() {
    let m = VoxelManger::new(9);
    let centre = find(&m, pos(1, 0, 1));
    let east = find(&m, pos(2, 0, 1));
    assert_eq!(m.get_neighbour(&m.voxels[centre]), vec![true, true, true, true, false, false]);
    let n_east = m.get_neighbour(&m.voxels[east]);
    assert!(n_east[2]);
    assert!(!n_east[3]);
    let m = m.update_map();
    assert_eq!(renders(&m.voxels[centre]), vec![false, false, false, false, true, true]);
    assert!(!m.voxels[centre].instances[3].render);
    assert!(!m.voxels[east].instances[1].render);
    assert!(m.voxels[east].instances[3].render);
}

#[test]
fn boundary_faces_stay_drawn() {
    let m = VoxelManger::new(16).update_map();
    for v in &m.voxels {
        let p = v.position;
        assert_eq!(v.instances[0].render, p.z == 0);
        assert_eq!(v.instances[1].render, p.x == 0);
        assert_eq!(v.instances[2].render, p.z == 3);
        assert_eq!(v.instances[3].render, p.x == 3);
        assert!(v.instances[4].render);
        assert!(v.instances[5].render);
    }
}

#[test]
fn neighbour_lists_follow_voxel_order() {
    let m = VoxelManger::new(4);
    let ns = m.get_neighbours();
    assert_eq!(ns.len(), 4);
    assert_eq!(ns[0], vec![true, false, false, true, false, false]);
    assert_eq!(ns[3], vec![false, true, true, false, false, false]);
}

#[test]
fn get_data_translations_match_face_offsets() {
    let v = Voxel::new(&pos(5, -2, 7));
    let (model, render) = v.get_data();
    assert_eq!(model.len(), 6);
    assert_eq!(render.len(), 6);
    let expected = [
        (pos(5, -2, 7), Axis::Z, 0),
        (pos(5, -2, 8), Axis::Y, 90),
        (pos(6, -2, 8), Axis::Y, 180),
        (pos(6, -2, 7), Axis::Y, 270),
        (pos(5, -1, 7), Axis::X, 90),
        (pos(6, -2, 8), Axis::X, 270),
    ];
    for (k, (t, axis, degrees)) in expected.iter().enumerate() {
        assert_eq!(model[k].translation, *t);
        assert_eq!(model[k].rotation, Rotation { axis: *axis, degrees: *degrees });
        assert_eq!(render[k].render, 1);
    }
}

#[test]
fn set_faces_leaves_cache_until_refreshed() {
    let mut v = Voxel::new(&pos(0, 0, 0));
    v.set_faces(Some(true), None, Some(false), Some(true), None, Some(true));
    assert_eq!(renders(&v), vec![true, true, false, false, true, false]);
    let (_, stale) = v.get_data();
    assert!(stale.iter().all(|r| r.render == 1));
    v.update_instance_data();
    let (_, fresh) = v.get_data();
    let words: Vec<u32> = fresh.iter().map(|r| r.render).collect();
    assert_eq!(words, vec![1, 1, 0, 0, 1, 0]);
}

#[test]
fn face_to_raw_encodes_visibility() {
    let f = FaceInstance {
        position: pos(1, 2, 3),
        rotation: Rotation { axis: Axis::Y, degrees: 90 },
        render: false,
    };
    let (model, render) = f.to_raw();
    assert_eq!(model.translation, pos(1, 2, 3));
    assert_eq!(model.rotation, Rotation { axis: Axis::Y, degrees: 90 });
    assert_eq!(render.render, 0);
    let (_, render) = FaceInstance { render: true, ..f }.to_raw();
    assert_eq!(render.render, 1);
}

#[test]
fn aggregated_data_is_voxel_then_face() {
    let m = VoxelManger::new(9).update_map();
    // culling alone leaves the aggregated data stale
    assert!(m.instances_render_data.iter().all(|r| r.render == 1));
    let m = m.update_buffers();
    assert_eq!(m.instances_model_data.len(), 9 * 6);
    assert_eq!(m.instances_render_data.len(), 9 * 6);
    for i in 0..9 * 6 {
        let (model, render) = m.voxels[i / 6].get_data();
        assert_eq!(m.instances_model_data[i], model[i % 6]);
        assert_eq!(m.instances_render_data[i], render[i % 6]);
    }
    assert_eq!(m.instance_count(), 54);
}

#[test]
fn culling_twice_changes_nothing() {
    let once = VoxelManger::new(9).update_map();
    let first: Vec<Vec<bool>> = once.voxels.iter().map(renders).collect();
    let ns = once.get_neighbours();
    let twice = once.update_map();
    let second: Vec<Vec<bool>> = twice.voxels.iter().map(renders).collect();
    assert_eq!(first, second);
    assert_eq!(ns, twice.get_neighbours());
}

#[test]
fn render_bytes_hold_four_bytes_per_word() {
    let m = VoxelManger::new(4).update_map().update_buffers();
    let bytes = m.render_bytes();
    assert_eq!(bytes.len(), 4 * 24);
    for (i, r) in m.instances_render_data.iter().enumerate() {
        let word = u32::from_ne_bytes([
            bytes[4 * i],
            bytes[4 * i + 1],
            bytes[4 * i + 2],
            bytes[4 * i + 3],
        ]);
        assert_eq!(word, r.render);
    }
    assert!(bytes.iter().any(|b| *b == 0));
}

#[test]
fn quad_indices_form_two_triangles() {
    assert_eq!(indices(), vec![0u16, 1, 2, 0, 2, 3]);
}

#[test]
fn bundle_manager_keeps_push_order() {
    let mut b: BundleManager<&str, u32> = BundleManager::new(7);
    assert!(b.get_bundles().is_empty());
    b.push_bundle("voxels");
    b._push_bundles(vec!["tiles", "cubes"]);
    assert_eq!(b.get_bundles(), &["voxels", "tiles", "cubes"]);
    assert_eq!(*b.get_depth_texture_view(), 7);
    b.set_depth_texture(9);
    assert_eq!(*b.get_depth_texture_view(), 9);
    assert_eq!(b.get_bundles().len(), 3);
}
