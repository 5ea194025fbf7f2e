use rust_system::{
    add_instance, add_mesh, add_mesh_face, add_mesh_vertex, add_update, create_instance_wrapper,
    create_mesh, create_rt_scene_builder, create_rt_scene_update, create_view_matrix, Instance,
    Pose, Vertex,
};

fn bits(v: f32) -> u32 {
    v.to_bits()
}

#[test]
fn new_mesh_is_empty() {
    let m = create_mesh();
    assert!(m.vertices().is_empty());
    assert!(m.faces().is_empty());
}

#[test]
fn mesh_vertices_and_faces_are_appended_in_order() {
    let mut m = create_mesh();
    add_mesh_vertex(&mut m, bits(1.0), bits(2.0), bits(3.0));
    add_mesh_vertex(&mut m, bits(-1.5), bits(0.0), bits(4.25));
    add_mesh_face(&mut m, 0);
    add_mesh_face(&mut m, 1);
    add_mesh_face(&mut m, 0);
    assert_eq!(
        m.vertices(),
        &[
            Vertex { x: bits(1.0), y: bits(2.0), z: bits(3.0) },
            Vertex { x: bits(-1.5), y: bits(0.0), z: bits(4.25) },
        ]
    );
    assert_eq!(m.faces(), &[0u16, 1, 0]);
    assert_eq!(f32::from_bits(m.vertices()[1].z), 4.25);
}

#[test]
fn faces_do_not_touch_vertices() {
    let mut m = create_mesh();
    add_mesh_face(&mut m, 65535);
    assert!(m.vertices().is_empty());
    assert_eq!(m.faces(), &[65535u16]);
}

#[test]
fn add_mesh_returns_consecutive_indices() {
    let mut b = create_rt_scene_builder();
    let mut m1 = create_mesh();
    add_mesh_vertex(&mut m1, 1, 2, 3);
    let mut m2 = create_mesh();
    add_mesh_face(&mut m2, 7);
    assert_eq!(add_mesh(&mut b, &m1), 0);
    assert_eq!(add_mesh(&mut b, &m2), 1);
    assert_eq!(add_mesh(&mut b, &m1), 2);
    assert_eq!(b.meshes().len(), 3);
    assert_eq!(b.meshes()[0].vertices(), m1.vertices());
    assert_eq!(b.meshes()[1].faces(), &[7u16]);
    assert_eq!(b.meshes()[2].vertices(), &[Vertex { x: 1, y: 2, z: 3 }]);
    assert!(b.instances().is_empty());
}

#[test]
fn added_mesh_is_a_copy() {
    let mut b = create_rt_scene_builder();
    let mut m = create_mesh();
    add_mesh_face(&mut m, 1);
    let i = add_mesh(&mut b, &m);
    add_mesh_face(&mut m, 2);
    assert_eq!(b.meshes()[i].faces(), &[1u16]);
    assert_eq!(m.faces(), &[1u16, 2]);
}

#[test]
fn add_instance_returns_consecutive_ids() {
    let mut b = create_rt_scene_builder();
    let w0 = create_instance_wrapper(0, bits(1.0), 0, 0, 0, 0, 0, bits(1.0));
    let w1 = create_instance_wrapper(3, 0, bits(2.0), 0, 0, 0, 0, bits(1.0));
    assert_eq!(add_instance(&mut b, &w0), 0);
    assert_eq!(add_instance(&mut b, &w1), 1);
    assert_eq!(b.instances(), &[w0.instance(), w1.instance()]);
    assert_eq!(b.instances()[1].asset_mesh_index, 3);
    assert!(b.meshes().is_empty());
}

#[test]
fn instance_wrapper_holds_pose() {
    let w = create_instance_wrapper(5, 1, 2, 3, 4, 5, 6, 7);
    assert_eq!(
        w.instance(),
        Instance {
            asset_mesh_index: 5,
            pose: Pose { x: 1, y: 2, z: 3, qx: 4, qy: 5, qz: 6, qw: 7 },
        }
    );
}

#[test]
fn updates_stay_paired_with_indices() {
    let mut u = create_rt_scene_update();
    assert!(u.updates.is_empty() && u.indices.is_empty());
    let a = create_instance_wrapper(0, 1, 1, 1, 0, 0, 0, bits(1.0));
    let c = create_instance_wrapper(1, 2, 2, 2, 0, 0, 0, bits(1.0));
    add_update(&mut u, &a, 4);
    add_update(&mut u, &c, 0);
    add_update(&mut u, &a, 4);
    assert_eq!(u.updates.len(), u.indices.len());
    assert_eq!(u.indices, vec![4usize, 0, 4]);
    assert_eq!(u.updates, vec![a.instance(), c.instance(), a.instance()]);
}

#[test]
fn view_matrix_holds_pose() {
    let v = create_view_matrix(1, 2, 3, 4, 5, 6, 7);
    assert_eq!(v.pose, Pose { x: 1, y: 2, z: 3, qx: 4, qy: 5, qz: 6, qw: 7 });
}
