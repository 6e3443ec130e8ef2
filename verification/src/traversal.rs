//! The scene traverser: a single depth-first, pre-order walk that
//! accumulates transforms from root to leaf and collects the draw calls a
//! renderer must issue, in exactly the order it must issue them.
//!
//! For a node with local matrix `M`, accumulated parent transform `A` and
//! view-projection matrix `VP`, the node is drawn with model matrix `M`
//! and combined matrix `(VP * A) * M`, and each child is visited with
//! accumulated transform `A * M`; children are visited in insertion
//! order.  A node without a drawable issues nothing itself, but its
//! children are still visited and drawn.

use vstd::prelude::*;

use crate::compose::{compose_transform, local_transform_of};
use crate::graph::{children_in_range, SceneGraph, SceneNode};
use crate::linalg::{mat_mul, mat_mul_of};

verus! {

/// One draw command: bind `vao_id`, upload the two matrix uniforms, draw
/// `index_count` indices as a triangle list.
pub struct DrawCall {
    pub vao_id: u32,
    pub index_count: i32,
    pub model_view_projection: nalgebra_glm::Mat4,
    pub model: nalgebra_glm::Mat4,
}

/// The local model matrix of one node, composed from its fields.
pub open spec fn node_local(n: SceneNode) -> nalgebra_glm::Mat4 {
    local_transform_of(n.position, n.rotation, n.reference_point)
}

/// The draw calls node `i` itself issues: one if it has a drawable, none
/// otherwise.
pub open spec fn own_draw(
    nodes: Seq<SceneNode>,
    i: usize,
    vp: nalgebra_glm::Mat4,
    acc: nalgebra_glm::Mat4,
) -> Seq<DrawCall> {
    match nodes[i as int].drawable {
        Option::Some(vao) => seq![
            (DrawCall {
                vao_id: vao,
                index_count: nodes[i as int].index_count,
                model_view_projection: mat_mul_of(mat_mul_of(vp, acc), node_local(nodes[i as int])),
                model: node_local(nodes[i as int]),
            }),
        ],
        Option::None => Seq::<DrawCall>::empty(),
    }
}

/// The draw calls issued by the subtree rooted at `i`, in depth-first
/// pre-order: the node's own draw first, then each child's subtree in
/// insertion order, every child accumulating `acc * M_i`.
pub open spec fn node_draws(
    nodes: Seq<SceneNode>,
    i: usize,
    vp: nalgebra_glm::Mat4,
    acc: nalgebra_glm::Mat4,
) -> Seq<DrawCall>
    decreases nodes.len() - i, 1int, 0int,
        when i < nodes.len() && children_in_range(nodes)
{
    own_draw(nodes, i, vp, acc) + children_draws(
        nodes,
        i,
        nodes[i as int].children@.len() as int,
        vp,
        mat_mul_of(acc, node_local(nodes[i as int])),
    )
}

/// The draw calls issued by the subtrees of the first `k` children of
/// node `i`, in order.
pub open spec fn children_draws(
    nodes: Seq<SceneNode>,
    i: usize,
    k: int,
    vp: nalgebra_glm::Mat4,
    acc: nalgebra_glm::Mat4,
) -> Seq<DrawCall>
    decreases nodes.len() - i, 0int, k,
        when i < nodes.len() && 0 <= k <= nodes[i as int].children@.len()
            && children_in_range(nodes)
{
    if k <= 0 {
        Seq::<DrawCall>::empty()
    } else {
        children_draws(nodes, i, k - 1, vp, acc) + node_draws(
            nodes,
            nodes[i as int].children@[k - 1],
            vp,
            acc,
        )
    }
}

/// The indices of the nodes the walk visits from `i`, in depth-first,
/// pre-order, children-in-insertion-order sequence.
pub open spec fn visit_seq(nodes: Seq<SceneNode>, i: usize) -> Seq<usize>
    decreases nodes.len() - i, 1int, 0int,
        when i < nodes.len() && children_in_range(nodes)
{
    seq![i] + children_visits(nodes, i, nodes[i as int].children@.len() as int)
}

/// The indices visited below the first `k` children of node `i`.
pub open spec fn children_visits(nodes: Seq<SceneNode>, i: usize, k: int) -> Seq<usize>
    decreases nodes.len() - i, 0int, k,
        when i < nodes.len() && 0 <= k <= nodes[i as int].children@.len()
            && children_in_range(nodes)
{
    if k <= 0 {
        Seq::<usize>::empty()
    } else {
        children_visits(nodes, i, k - 1) + visit_seq(nodes, nodes[i as int].children@[k - 1])
    }
}

impl SceneGraph {
    /// Walks the subtree rooted at `root` depth-first and returns every
    /// draw call in issuance order.  `view_projection` is the camera's
    /// combined view-projection matrix; `accumulated` is the transform
    /// accumulated above `root` (the identity matrix at a tree root).
    /// Traversal never fails and prunes nothing.
    pub fn traverse(
        &self,
        root: usize,
        view_projection: &nalgebra_glm::Mat4,
        accumulated: &nalgebra_glm::Mat4,
    ) -> (calls: Vec<DrawCall>)
        requires
            self.wf(),
            root < self@.len(),
        ensures
            calls@ == node_draws(self@, root, *view_projection, *accumulated),
    {
        let mut calls: Vec<DrawCall> = Vec::new();
        self.traverse_into(root, view_projection, accumulated, &mut calls);
        calls
    }

    /// Appends the draw calls of the subtree rooted at `i` to `out`.
    fn traverse_into(
        &self,
        i: usize,
        vp: &nalgebra_glm::Mat4,
        acc: &nalgebra_glm::Mat4,
        out: &mut Vec<DrawCall>,
    )
        requires
            self.wf(),
            i < self@.len(),
        ensures
            final(out)@ == old(out)@ + node_draws(self@, i, *vp, *acc),
        decreases self@.len() - i,
    {
        let node = self.node(i);
        let m = compose_transform(&node.position, &node.rotation, &node.reference_point);
        let vp_acc = mat_mul(vp, acc);
        match node.drawable {
            Some(vao) => {
                let mvp = mat_mul(&vp_acc, &m);
                out.push(
                    DrawCall {
                        vao_id: vao,
                        index_count: node.index_count,
                        model_view_projection: mvp,
                        model: m,
                    },
                );
            },
            None => {},
        }
        let child_acc = mat_mul(acc, &m);
        let n_children = node.children.len();
        let mut k: usize = 0;
        while k < n_children
            invariant
                self.wf(),
                i < self@.len(),
                *node == self@[i as int],
                m == node_local(self@[i as int]),
                child_acc == mat_mul_of(*acc, node_local(self@[i as int])),
                n_children == self@[i as int].children@.len(),
                k <= n_children,
                out@ == old(out)@ + own_draw(self@, i, *vp, *acc) + children_draws(
                    self@,
                    i,
                    k as int,
                    *vp,
                    child_acc,
                ),
            decreases n_children - k,
        {
            let c = node.children[k];
            assert(i < self@[i as int].children@[k as int] && self@[i as int].children@[k as int]
                < self@.len());
            self.traverse_into(c, vp, &child_acc, out);
            k = k + 1;
        }
    }

    /// The order in which the walk visits the subtree rooted at `root`:
    /// depth-first, pre-order, children in insertion order.  `traverse`
    /// issues its draw calls in exactly this node order, skipping nodes
    /// without a drawable.
    pub fn visit_order(&self, root: usize) -> (order: Vec<usize>)
        requires
            self.wf(),
            root < self@.len(),
        ensures
            order@ == visit_seq(self@, root),
    {
        let mut order: Vec<usize> = Vec::new();
        self.visit_into(root, &mut order);
        order
    }

    /// Appends the indices visited below `i` to `out`.
    fn visit_into(&self, i: usize, out: &mut Vec<usize>)
        requires
            self.wf(),
            i < self@.len(),
        ensures
            final(out)@ == old(out)@ + visit_seq(self@, i),
        decreases self@.len() - i,
    {
        out.push(i);
        let node = self.node(i);
        let n_children = node.children.len();
        let mut k: usize = 0;
        while k < n_children
            invariant
                self.wf(),
                i < self@.len(),
                *node == self@[i as int],
                n_children == self@[i as int].children@.len(),
                k <= n_children,
                out@ == old(out)@ + seq![i] + children_visits(self@, i, k as int),
            decreases n_children - k,
        {
            let c = node.children[k];
            assert(i < self@[i as int].children@[k as int] && self@[i as int].children@[k as int]
                < self@.len());
            self.visit_into(c, out);
            k = k + 1;
        }
    }
}

} // verus!
