//! The helicopter rig and the per-frame animation update pass.
//!
//! A helicopter is four drawable nodes: a body with the main rotor, the
//! tail rotor and the door attached under it, in that order.  The tail
//! rotor spins about a pivot on the tail boom, so it gets its own
//! reference point.  Each frame, before traversal, the animation pass
//! writes a freshly computed pose — body position and attitude plus the
//! two rotor angles — straight into those nodes' fields.

use vstd::prelude::*;

use crate::graph::{SceneGraph, SceneNode};
use crate::traversal::{node_draws, DrawCall};

verus! {

/// The node indices of one helicopter's parts.
#[derive(Clone, Copy, Debug, PartialEq, Eq, Structural)]
pub struct HelicopterIds {
    pub body: usize,
    pub main_rotor: usize,
    pub tail_rotor: usize,
    pub door: usize,
}

/// One frame's freshly computed pose for a helicopter: where the body
/// sits, how it is banked, and how far each rotor has turned.
pub struct HelicopterPose {
    pub position: nalgebra_glm::Vec3,
    pub rotation: nalgebra_glm::Vec3,
    pub main_rotor_rotation: nalgebra_glm::Vec3,
    pub tail_rotor_rotation: nalgebra_glm::Vec3,
}

impl HelicopterIds {
    /// The four indices are distinct nodes of an arena of length `len`.
    pub open spec fn in_range(self, len: int) -> bool {
        self.body < len && self.main_rotor < len && self.tail_rotor < len && self.door < len
            && self.body != self.main_rotor && self.body != self.tail_rotor
            && self.body != self.door && self.main_rotor != self.tail_rotor
            && self.main_rotor != self.door && self.tail_rotor != self.door
    }
}

/// The arena after one helicopter's pose is written: the body's position
/// and rotation, then the main rotor's rotation, then the tail rotor's
/// rotation; everything else untouched.
pub open spec fn apply_pose(
    nodes: Seq<SceneNode>,
    ids: HelicopterIds,
    pose: HelicopterPose,
) -> Seq<SceneNode> {
    let s1 = nodes.update(
        ids.body as int,
        (SceneNode { position: pose.position, rotation: pose.rotation, ..nodes[ids.body as int] }),
    );
    let s2 = s1.update(
        ids.main_rotor as int,
        (SceneNode { rotation: pose.main_rotor_rotation, ..s1[ids.main_rotor as int] }),
    );
    s2.update(
        ids.tail_rotor as int,
        (SceneNode { rotation: pose.tail_rotor_rotation, ..s2[ids.tail_rotor as int] }),
    )
}

/// Builds one helicopter under no parent: a drawable body node with the
/// main rotor, tail rotor and door attached below it, in that order.  The
/// tail rotor pivots about `tail_rotor_reference`.  The caller attaches
/// the returned body to the rest of the scene.
pub fn build_helicopter(
    g: &mut SceneGraph,
    body_vao: u32,
    body_indices: i32,
    door_vao: u32,
    door_indices: i32,
    tail_rotor_vao: u32,
    tail_rotor_indices: i32,
    main_rotor_vao: u32,
    main_rotor_indices: i32,
    tail_rotor_reference: nalgebra_glm::Vec3,
) -> (ids: HelicopterIds)
    requires
        old(g).wf(),
        old(g)@.len() + 4 <= usize::MAX,
    ensures
        final(g).wf(),
        final(g)@.len() == old(g)@.len() + 4,
        ids.body == old(g)@.len(),
        ids.door == old(g)@.len() + 1,
        ids.tail_rotor == old(g)@.len() + 2,
        ids.main_rotor == old(g)@.len() + 3,
        ids.in_range(final(g)@.len() as int),
        forall|j: int| 0 <= j < old(g)@.len() ==> final(g)@[j] == old(g)@[j],
        final(g)@[ids.body as int].drawable == Option::Some(body_vao),
        final(g)@[ids.body as int].index_count == body_indices,
        final(g)@[ids.body as int].has_parent == false,
        final(g)@[ids.body as int].children@ =~= seq![ids.main_rotor, ids.tail_rotor, ids.door],
        final(g)@[ids.door as int].drawable == Option::Some(door_vao),
        final(g)@[ids.door as int].index_count == door_indices,
        final(g)@[ids.door as int].has_parent == true,
        final(g)@[ids.door as int].children@ =~= Seq::<usize>::empty(),
        final(g)@[ids.tail_rotor as int].drawable == Option::Some(tail_rotor_vao),
        final(g)@[ids.tail_rotor as int].index_count == tail_rotor_indices,
        final(g)@[ids.tail_rotor as int].has_parent == true,
        final(g)@[ids.tail_rotor as int].children@ =~= Seq::<usize>::empty(),
        final(g)@[ids.tail_rotor as int].reference_point == tail_rotor_reference,
        final(g)@[ids.main_rotor as int].drawable == Option::Some(main_rotor_vao),
        final(g)@[ids.main_rotor as int].index_count == main_rotor_indices,
        final(g)@[ids.main_rotor as int].has_parent == true,
        final(g)@[ids.main_rotor as int].children@ =~= Seq::<usize>::empty(),
{
    let body = g.add_drawable_node(body_vao, body_indices);
    let door = g.add_drawable_node(door_vao, door_indices);
    let tail_rotor = g.add_drawable_node(tail_rotor_vao, tail_rotor_indices);
    let main_rotor = g.add_drawable_node(main_rotor_vao, main_rotor_indices);
    g.set_reference_point(tail_rotor, tail_rotor_reference);
    let r1 = g.attach_child(body, main_rotor);
    proof {
        assert(r1 is Ok);
    }
    let r2 = g.attach_child(body, tail_rotor);
    proof {
        assert(r2 is Ok);
    }
    let r3 = g.attach_child(body, door);
    proof {
        assert(r3 is Ok);
    }
    HelicopterIds { body, main_rotor, tail_rotor, door }
}

/// The animation update pass for one helicopter: writes the pose into the
/// body and rotor nodes.  Runs strictly before traversal, never during
/// it.
pub fn update_helicopter(g: &mut SceneGraph, ids: HelicopterIds, pose: &HelicopterPose)
    requires
        old(g).wf(),
        ids.in_range(old(g)@.len() as int),
    ensures
        final(g).wf(),
        final(g)@ == apply_pose(old(g)@, ids, *pose),
        final(g)@.len() == old(g)@.len(),
{
    g.set_position(ids.body, pose.position);
    g.set_rotation(ids.body, pose.rotation);
    g.set_rotation(ids.main_rotor, pose.main_rotor_rotation);
    g.set_rotation(ids.tail_rotor, pose.tail_rotor_rotation);
    proof {
        assert(g@ =~= apply_pose(old(g)@, ids, *pose));
    }
}

/// The arena after the first `k` helicopters' poses are written, in
/// order.
pub open spec fn apply_poses(
    nodes: Seq<SceneNode>,
    rigs: Seq<HelicopterIds>,
    poses: Seq<HelicopterPose>,
    k: int,
) -> Seq<SceneNode>
    decreases k,
{
    if k <= 0 {
        nodes
    } else {
        apply_pose(apply_poses(nodes, rigs, poses, k - 1), rigs[k - 1], poses[k - 1])
    }
}

/// One frame of the coordinator's work on the scene: run the animation
/// update pass over every helicopter, then traverse the tree once from
/// `root` and return the frame's draw calls.  The two phases never
/// interleave.
pub fn animate_and_traverse(
    g: &mut SceneGraph,
    rigs: &Vec<HelicopterIds>,
    poses: &Vec<HelicopterPose>,
    root: usize,
    view_projection: &nalgebra_glm::Mat4,
    accumulated: &nalgebra_glm::Mat4,
) -> (calls: Vec<DrawCall>)
    requires
        old(g).wf(),
        rigs@.len() == poses@.len(),
        root < old(g)@.len(),
        forall|j: int| 0 <= j < rigs@.len() ==> (#[trigger] rigs@[j]).in_range(old(g)@.len() as int),
    ensures
        final(g).wf(),
        final(g)@ == apply_poses(old(g)@, rigs@, poses@, rigs@.len() as int),
        calls@ == node_draws(final(g)@, root, *view_projection, *accumulated),
{
    let n = rigs.len();
    let mut k: usize = 0;
    while k < n
        invariant
            g.wf(),
            n == rigs@.len(),
            rigs@.len() == poses@.len(),
            k <= n,
            root < g@.len(),
            g@.len() == old(g)@.len(),
            forall|j: int|
                0 <= j < rigs@.len() ==> (#[trigger] rigs@[j]).in_range(old(g)@.len() as int),
            g@ == apply_poses(old(g)@, rigs@, poses@, k as int),
        decreases n - k,
    {
        update_helicopter(g, rigs[k], &poses[k]);
        k = k + 1;
    }
    g.traverse(root, view_projection, accumulated)
}

} // verus!
