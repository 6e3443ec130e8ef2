use nalgebra_glm::{identity, rotation, translation, vec3};
use scene_graph::compose::compose_transform;
use scene_graph::graph::{AttachError, SceneGraph};

fn zero() -> nalgebra_glm::Vec3 {
    vec3(0.0, 0.0, 0.0)
}

#[test]
fn new_graph_is_empty() {
    let g = SceneGraph::new();
    assert_eq!(g.len(), 0);
}

#[test]
fn fresh_node_starts_at_zero_vectors() {
    let mut g = SceneGraph::new();
    let id = g.add_drawable_node(7, 42);
    let n = g.node(id);
    assert_eq!(n.position, zero());
    assert_eq!(n.rotation, zero());
    assert_eq!(n.reference_point, zero());
    assert_eq!(n.drawable, Some(7));
    assert_eq!(n.index_count, 42);
    assert!(n.children.is_empty());
}

#[test]
fn group_node_has_no_drawable() {
    let mut g = SceneGraph::new();
    let id = g.add_group_node();
    assert_eq!(g.node(id).drawable, None);
}

#[test]
fn attach_rejects_out_of_range() {
    let mut g = SceneGraph::new();
    let a = g.add_group_node();
    assert_eq!(g.attach_child(a, 5), Err(AttachError::NoSuchNode));
    assert_eq!(g.attach_child(5, a), Err(AttachError::NoSuchNode));
}

#[test]
fn attach_rejects_older_or_same_child() {
    let mut g = SceneGraph::new();
    let a = g.add_group_node();
    let b = g.add_group_node();
    assert_eq!(g.attach_child(b, a), Err(AttachError::NotNewer));
    assert_eq!(g.attach_child(a, a), Err(AttachError::NotNewer));
}

#[test]
fn attach_rejects_second_parent() {
    let mut g = SceneGraph::new();
    let a = g.add_group_node();
    let b = g.add_group_node();
    let c = g.add_group_node();
    assert_eq!(g.attach_child(a, c), Ok(()));
    assert_eq!(g.attach_child(b, c), Err(AttachError::AlreadyAttached));
}

#[test]
fn traversal_is_depth_first_preorder() {
    // root -> [a, b], a -> [c]: expected visitation root, a, c, b.
    let mut g = SceneGraph::new();
    let root = g.add_group_node();
    let a = g.add_group_node();
    let b = g.add_group_node();
    let c = g.add_group_node();
    g.attach_child(root, a).unwrap();
    g.attach_child(a, c).unwrap();
    g.attach_child(root, b).unwrap();
    assert_eq!(g.visit_order(root), vec![root, a, c, b]);
}

#[test]
fn no_children_traversal_visits_only_the_root() {
    let mut g = SceneGraph::new();
    let p = g.add_group_node();
    assert_eq!(g.visit_order(p), vec![p]);
}

#[test]
fn one_child_keeps_insertion_order() {
    let mut g = SceneGraph::new();
    let p = g.add_group_node();
    let c = g.add_drawable_node(1, 3);
    g.attach_child(p, c).unwrap();
    assert_eq!(g.visit_order(p), vec![p, c]);
}

#[test]
fn five_children_keep_insertion_order() {
    let mut g = SceneGraph::new();
    let p = g.add_group_node();
    let mut expected = vec![p];
    for i in 0..5u32 {
        let c = g.add_drawable_node(i, 3);
        g.attach_child(p, c).unwrap();
        expected.push(c);
    }
    assert_eq!(g.visit_order(p), expected);
    // The draw calls come in the same order.
    let calls = g.traverse(p, &identity::<f32, 4>(), &identity::<f32, 4>());
    let vaos: Vec<u32> = calls.iter().map(|c| c.vao_id).collect();
    assert_eq!(vaos, vec![0, 1, 2, 3, 4]);
}

#[test]
fn chain_mvp_matches_manual_composition() {
    let mut g = SceneGraph::new();
    let root = g.add_drawable_node(10, 30);
    let child = g.add_drawable_node(11, 33);
    g.attach_child(root, child).unwrap();
    g.set_position(root, vec3(1.0, 2.0, 3.0));
    g.set_rotation(root, vec3(0.2, -0.4, 0.8));
    g.set_position(child, vec3(-0.5, 0.25, 4.0));
    g.set_rotation(child, vec3(0.0, 1.3, 0.0));
    g.set_reference_point(child, vec3(0.1, 0.0, -0.2));

    let vp = translation(&vec3(0.0, 0.0, -10.0)) * rotation(0.5, &vec3(0.0, 1.0, 0.0));
    let calls = g.traverse(root, &vp, &identity::<f32, 4>());
    assert_eq!(calls.len(), 2);

    let m_root = compose_transform(
        &g.node(root).position,
        &g.node(root).rotation,
        &g.node(root).reference_point,
    );
    let m_child = compose_transform(
        &g.node(child).position,
        &g.node(child).rotation,
        &g.node(child).reference_point,
    );
    assert_eq!(calls[0].model, m_root);
    assert_eq!(calls[0].model_view_projection, vp * m_root);
    assert_eq!(calls[1].model, m_child);
    assert_eq!(calls[1].model_view_projection, vp * m_root * m_child);
}

#[test]
fn group_node_issues_no_draw_call_but_children_are_drawn() {
    let mut g = SceneGraph::new();
    let root = g.add_group_node();
    let child = g.add_drawable_node(4, 12);
    g.attach_child(root, child).unwrap();
    g.set_position(root, vec3(5.0, 0.0, 0.0));
    g.set_position(child, vec3(1.0, 2.0, 3.0));

    let vp = translation(&vec3(0.0, -1.0, 0.0));
    let calls = g.traverse(root, &vp, &identity::<f32, 4>());
    assert_eq!(calls.len(), 1);
    assert_eq!(calls[0].vao_id, 4);
    assert_eq!(calls[0].index_count, 12);

    let m_root = compose_transform(&vec3(5.0, 0.0, 0.0), &zero(), &zero());
    let m_child = compose_transform(&vec3(1.0, 2.0, 3.0), &zero(), &zero());
    assert_eq!(calls[0].model, m_child);
    assert_eq!(calls[0].model_view_projection, vp * m_root * m_child);
}

#[test]
fn end_to_end_identity_camera_draws_child_at_its_translation() {
    // A root group node at identity, one drawable child at (0, 0, -5),
    // camera and projection both identity: the child's combined matrix is
    // exactly Translate(0, 0, -5).
    let mut g = SceneGraph::new();
    let root = g.add_group_node();
    let child = g.add_drawable_node(2, 6);
    g.attach_child(root, child).unwrap();
    g.set_position(child, vec3(0.0, 0.0, -5.0));

    let calls = g.traverse(root, &identity::<f32, 4>(), &identity::<f32, 4>());
    assert_eq!(calls.len(), 1);
    assert_eq!(calls[0].model_view_projection, translation(&vec3(0.0, 0.0, -5.0)));
}
