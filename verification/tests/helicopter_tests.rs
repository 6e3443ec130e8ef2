use nalgebra_glm::{identity, vec3};
use scene_graph::graph::SceneGraph;
use scene_graph::helicopter::{
    animate_and_traverse, build_helicopter, update_helicopter, HelicopterIds, HelicopterPose,
};

fn tail_pivot() -> nalgebra_glm::Vec3 {
    vec3(0.035, 0.023, 0.104)
}

fn build_one(g: &mut SceneGraph, base: u32) -> HelicopterIds {
    build_helicopter(g, base, 100, base + 1, 101, base + 2, 102, base + 3, 103, tail_pivot())
}

#[test]
fn helicopter_parts_are_wired_in_order() {
    let mut g = SceneGraph::new();
    let ids = build_one(&mut g, 20);
    assert_eq!(g.len(), 4);
    let body = g.node(ids.body);
    assert_eq!(body.drawable, Some(20));
    assert_eq!(body.index_count, 100);
    // Children in insertion order: main rotor, tail rotor, door.
    assert_eq!(body.children, vec![ids.main_rotor, ids.tail_rotor, ids.door]);
    assert_eq!(g.node(ids.door).drawable, Some(21));
    assert_eq!(g.node(ids.tail_rotor).drawable, Some(22));
    assert_eq!(g.node(ids.main_rotor).drawable, Some(23));
    assert_eq!(g.node(ids.tail_rotor).reference_point, tail_pivot());
}

#[test]
fn update_writes_the_pose_into_the_rig() {
    let mut g = SceneGraph::new();
    let ids = build_one(&mut g, 0);
    let pose = HelicopterPose {
        position: vec3(1.0, 2.0, 3.0),
        rotation: vec3(0.1, 0.2, 0.3),
        main_rotor_rotation: vec3(0.0, 7.5, 0.0),
        tail_rotor_rotation: vec3(9.25, 0.0, 0.0),
    };
    update_helicopter(&mut g, ids, &pose);
    assert_eq!(g.node(ids.body).position, vec3(1.0, 2.0, 3.0));
    assert_eq!(g.node(ids.body).rotation, vec3(0.1, 0.2, 0.3));
    assert_eq!(g.node(ids.main_rotor).rotation, vec3(0.0, 7.5, 0.0));
    assert_eq!(g.node(ids.tail_rotor).rotation, vec3(9.25, 0.0, 0.0));
    // The door and the pivot stay untouched.
    assert_eq!(g.node(ids.door).rotation, vec3(0.0, 0.0, 0.0));
    assert_eq!(g.node(ids.tail_rotor).reference_point, tail_pivot());
}

#[test]
fn one_frame_updates_every_rig_then_draws_the_whole_scene() {
    let mut g = SceneGraph::new();
    let terrain = g.add_drawable_node(1, 600);
    let first = build_one(&mut g, 30);
    let second = build_one(&mut g, 40);
    g.attach_child(terrain, first.body).unwrap();
    g.attach_child(terrain, second.body).unwrap();

    let rigs = vec![first, second];
    let poses = vec![
        HelicopterPose {
            position: vec3(0.0, 0.1, 0.4),
            rotation: vec3(0.0, 0.2, 0.0),
            main_rotor_rotation: vec3(0.0, 15.0, 0.0),
            tail_rotor_rotation: vec3(20.0, 0.0, 0.0),
        },
        HelicopterPose {
            position: vec3(0.1, 0.25, 0.3),
            rotation: vec3(0.05, 0.0, 0.0),
            main_rotor_rotation: vec3(0.0, 16.0, 0.0),
            tail_rotor_rotation: vec3(21.0, 0.0, 0.0),
        },
    ];
    let vp = identity::<f32, 4>();
    let calls = animate_and_traverse(&mut g, &rigs, &poses, terrain, &vp, &identity::<f32, 4>());

    // Terrain first, then each helicopter subtree depth-first: body, main
    // rotor, tail rotor, door.
    let vaos: Vec<u32> = calls.iter().map(|c| c.vao_id).collect();
    assert_eq!(vaos, vec![1, 30, 33, 32, 31, 40, 43, 42, 41]);
    assert_eq!(g.node(first.main_rotor).rotation, vec3(0.0, 15.0, 0.0));
    assert_eq!(g.node(second.tail_rotor).rotation, vec3(21.0, 0.0, 0.0));
    assert_eq!(g.node(first.body).position, vec3(0.0, 0.1, 0.4));
}
