//! The scene graph: an arena of nodes addressed by stable integer indices.
//!
//! Children hold indices into the arena, never addresses, so nodes may be
//! created at any time without invalidating the tree.  A child's index is
//! always strictly greater than its parent's, which rules out cycles by
//! construction and gives the traversal its termination measure; a node
//! can be attached at most once, so the graph is a forest of trees.

use vstd::prelude::*;

verus! {

/// One node of the scene graph.
///
/// `position` is the node's translation in its parent's space, applied
/// after the rotation; `rotation` holds Euler-like angles in radians
/// (`x` = pitch, `y` = yaw, `z` = roll), applied about `reference_point`,
/// the local pivot.  `drawable` is the GPU handle of the node's mesh, or
/// `None` for a purely organizational node; `index_count` is the number of
/// indices to draw when `drawable` is set and is meaningless otherwise.
pub struct SceneNode {
    pub position: nalgebra_glm::Vec3,
    pub rotation: nalgebra_glm::Vec3,
    pub reference_point: nalgebra_glm::Vec3,
    pub drawable: Option<u32>,
    pub index_count: i32,
    pub has_parent: bool,
    pub children: Vec<usize>,
}

/// Every child index lies strictly between its parent's index and the
/// arena's length: edges always point to newer nodes, so no path can
/// revisit a node and every walk terminates.
pub open spec fn children_in_range(nodes: Seq<SceneNode>) -> bool {
    forall|i: int, k: int|
        0 <= i < nodes.len() && 0 <= k < nodes[i].children@.len()
            ==> i < #[trigger] nodes[i].children@[k] && nodes[i].children@[k] < nodes.len()
}

/// Every node that appears in some child list carries the `has_parent`
/// mark.
pub open spec fn parent_marks(nodes: Seq<SceneNode>) -> bool {
    forall|i: int, k: int|
        0 <= i < nodes.len() && 0 <= k < nodes[i].children@.len()
            ==> nodes[#[trigger] nodes[i].children@[k] as int].has_parent
}

/// No node appears twice among all the child lists: each node has at most
/// one parent, and no parent lists the same child twice.
pub open spec fn edges_unique(nodes: Seq<SceneNode>) -> bool {
    forall|i1: int, k1: int, i2: int, k2: int|
        #![trigger nodes[i1].children@[k1], nodes[i2].children@[k2]]
        0 <= i1 < nodes.len() && 0 <= k1 < nodes[i1].children@.len()
            && 0 <= i2 < nodes.len() && 0 <= k2 < nodes[i2].children@.len()
            && nodes[i1].children@[k1] == nodes[i2].children@[k2]
            ==> i1 == i2 && k1 == k2
}

/// The invariant of the arena: a forest whose edges point strictly
/// forward.
pub open spec fn wf_nodes(nodes: Seq<SceneNode>) -> bool {
    children_in_range(nodes) && parent_marks(nodes) && edges_unique(nodes)
}

/// The transform and drawable fields of `a` and `b` agree; only the tree
/// structure (children, parent mark) may differ.
pub open spec fn same_payload(a: SceneNode, b: SceneNode) -> bool {
    a.position == b.position && a.rotation == b.rotation
        && a.reference_point == b.reference_point && a.drawable == b.drawable
        && a.index_count == b.index_count
}

/// Why `attach_child` refused.
#[derive(Clone, Copy, Debug, PartialEq, Eq, Structural)]
pub enum AttachError {
    /// The parent or the child index is out of range.
    NoSuchNode,
    /// The child's index is not strictly greater than the parent's:
    /// attaching it could close a cycle, so only newer nodes may be
    /// attached.
    NotNewer,
    /// The child already has a parent.
    AlreadyAttached,
}

/// The arena that owns every node of one scene.
pub struct SceneGraph {
    nodes: Vec<SceneNode>,
}

impl View for SceneGraph {
    type V = Seq<SceneNode>;

    closed spec fn view(&self) -> Seq<SceneNode> {
        self.nodes@
    }
}

impl SceneGraph {
    /// The arena's invariant; every operation preserves it.
    pub open spec fn wf(&self) -> bool {
        wf_nodes(self@)
    }

    /// An empty scene graph.
    pub fn new() -> (g: SceneGraph)
        ensures
            g@ =~= Seq::<SceneNode>::empty(),
            g.wf(),
    {
        SceneGraph { nodes: Vec::new() }
    }

    /// How many nodes the arena holds.
    pub fn len(&self) -> (n: usize)
        ensures
            n == self@.len(),
    {
        self.nodes.len()
    }

    /// A shared view of one node.
    pub fn node(&self, id: usize) -> (n: &SceneNode)
        requires
            id < self@.len(),
        ensures
            *n == self@[id as int],
    {
        &self.nodes[id]
    }

    /// Appends a fresh, unattached node with the given drawable and index
    /// count, and returns its index.  Position, rotation and reference
    /// point start as the zero vector.
    fn push_node(&mut self, drawable: Option<u32>, index_count: i32) -> (id: usize)
        requires
            old(self).wf(),
        ensures
            final(self).wf(),
            id == old(self)@.len(),
            final(self)@.len() == old(self)@.len() + 1,
            forall|j: int| 0 <= j < old(self)@.len() ==> final(self)@[j] == old(self)@[j],
            final(self)@[id as int].drawable == drawable,
            final(self)@[id as int].index_count == index_count,
            final(self)@[id as int].has_parent == false,
            final(self)@[id as int].children@ =~= Seq::<usize>::empty(),
    {
        let id = self.nodes.len();
        let node = SceneNode {
            position: crate::linalg::zero_vec(),
            rotation: crate::linalg::zero_vec(),
            reference_point: crate::linalg::zero_vec(),
            drawable,
            index_count,
            has_parent: false,
            children: Vec::new(),
        };
        self.nodes.push(node);
        proof {
            let s1 = old(self)@;
            let s2 = self@;
            assert forall|i: int, k: int|
                0 <= i < s2.len() && 0 <= k < s2[i].children@.len()
                    implies i < #[trigger] s2[i].children@[k] && s2[i].children@[k] < s2.len()
                    && s2[#[trigger] s2[i].children@[k] as int].has_parent by {
                assert(i < s1.len());
                assert(s2[i] == s1[i]);
            }
            assert forall|i1: int, k1: int, i2: int, k2: int|
                #![trigger s2[i1].children@[k1], s2[i2].children@[k2]]
                0 <= i1 < s2.len() && 0 <= k1 < s2[i1].children@.len()
                    && 0 <= i2 < s2.len() && 0 <= k2 < s2[i2].children@.len()
                    && s2[i1].children@[k1] == s2[i2].children@[k2]
                    implies i1 == i2 && k1 == k2 by {
                assert(i1 < s1.len() && i2 < s1.len());
                assert(s2[i1] == s1[i1] && s2[i2] == s1[i2]);
            }
        }
        id
    }

    /// Creates a purely organizational (pivot / group) node: it is never
    /// drawn, but its transform applies to everything below it.
    pub fn add_group_node(&mut self) -> (id: usize)
        requires
            old(self).wf(),
        ensures
            final(self).wf(),
            id == old(self)@.len(),
            final(self)@.len() == old(self)@.len() + 1,
            forall|j: int| 0 <= j < old(self)@.len() ==> final(self)@[j] == old(self)@[j],
            final(self)@[id as int].drawable == Option::<u32>::None,
            final(self)@[id as int].has_parent == false,
            final(self)@[id as int].children@ =~= Seq::<usize>::empty(),
    {
        self.push_node(None, 0)
    }

    /// Creates a drawable node from a GPU drawable handle and the number
    /// of indices its mesh draws.
    pub fn add_drawable_node(&mut self, vao_id: u32, index_count: i32) -> (id: usize)
        requires
            old(self).wf(),
        ensures
            final(self).wf(),
            id == old(self)@.len(),
            final(self)@.len() == old(self)@.len() + 1,
            forall|j: int| 0 <= j < old(self)@.len() ==> final(self)@[j] == old(self)@[j],
            final(self)@[id as int].drawable == Option::Some(vao_id),
            final(self)@[id as int].index_count == index_count,
            final(self)@[id as int].has_parent == false,
            final(self)@[id as int].children@ =~= Seq::<usize>::empty(),
    {
        self.push_node(Some(vao_id), index_count)
    }

    /// Appends `child` to the end of `parent`'s child list.
    ///
    /// Succeeds exactly when both indices are in range, `child` is
    /// strictly newer than `parent`, and `child` has no parent yet; these
    /// checks keep the graph a forest and make a cycle impossible.  On
    /// failure nothing changes.
    pub fn attach_child(&mut self, parent: usize, child: usize) -> (r: Result<(), AttachError>)
        requires
            old(self).wf(),
        ensures
            final(self).wf(),
            r is Ok <==> (parent < old(self)@.len() && child < old(self)@.len()
                && parent < child && !old(self)@[child as int].has_parent),
            r == Result::<(), AttachError>::Err(AttachError::NoSuchNode)
                <==> (parent >= old(self)@.len() || child >= old(self)@.len()),
            r == Result::<(), AttachError>::Err(AttachError::NotNewer)
                <==> (parent < old(self)@.len() && child < old(self)@.len() && child <= parent),
            r == Result::<(), AttachError>::Err(AttachError::AlreadyAttached)
                <==> (parent < old(self)@.len() && child < old(self)@.len() && parent < child
                    && old(self)@[child as int].has_parent),
            r is Err ==> final(self)@ == old(self)@,
            r is Ok ==> {
                &&& final(self)@.len() == old(self)@.len()
                &&& forall|j: int|
                    0 <= j < old(self)@.len() && j != parent && j != child
                        ==> final(self)@[j] == old(self)@[j]
                &&& same_payload(final(self)@[parent as int], old(self)@[parent as int])
                &&& final(self)@[parent as int].has_parent
                    == old(self)@[parent as int].has_parent
                &&& final(self)@[parent as int].children@
                    =~= old(self)@[parent as int].children@.push(child)
                &&& same_payload(final(self)@[child as int], old(self)@[child as int])
                &&& final(self)@[child as int].has_parent == true
                &&& final(self)@[child as int].children@
                    == old(self)@[child as int].children@
            },
    {
        if parent >= self.nodes.len() || child >= self.nodes.len() {
            return Err(AttachError::NoSuchNode);
        }
        if child <= parent {
            return Err(AttachError::NotNewer);
        }
        if self.nodes[child].has_parent {
            return Err(AttachError::AlreadyAttached);
        }
        self.nodes[parent].children.push(child);
        self.nodes[child].has_parent = true;
        proof {
            let s1 = old(self)@;
            let s2 = self@;
            let p = parent as int;
            let c = child as int;
            assert(s2[p].children@ =~= s1[p].children@.push(child));
            assert forall|i: int, k: int|
                0 <= i < s2.len() && 0 <= k < s2[i].children@.len()
                    implies i < #[trigger] s2[i].children@[k] && s2[i].children@[k] < s2.len() by {
                if i == p && k == s1[p].children@.len() {
                    assert(s2[i].children@[k] == child);
                } else {
                    assert(s2[i].children@[k] == s1[i].children@[k]);
                }
            }
            assert forall|i: int, k: int|
                0 <= i < s2.len() && 0 <= k < s2[i].children@.len()
                    implies s2[#[trigger] s2[i].children@[k] as int].has_parent by {
                if i == p && k == s1[p].children@.len() {
                    assert(s2[i].children@[k] == child);
                    assert(s2[c].has_parent);
                } else {
                    assert(s2[i].children@[k] == s1[i].children@[k]);
                    let d = s1[i].children@[k] as int;
                    assert(s1[d].has_parent);
                    assert(s2[d].has_parent == s1[d].has_parent || d == c);
                }
            }
            assert forall|i1: int, k1: int, i2: int, k2: int|
                #![trigger s2[i1].children@[k1], s2[i2].children@[k2]]
                0 <= i1 < s2.len() && 0 <= k1 < s2[i1].children@.len()
                    && 0 <= i2 < s2.len() && 0 <= k2 < s2[i2].children@.len()
                    && s2[i1].children@[k1] == s2[i2].children@[k2]
                    implies i1 == i2 && k1 == k2 by {
                let new1 = i1 == p && k1 == s1[p].children@.len();
                let new2 = i2 == p && k2 == s1[p].children@.len();
                if new1 && new2 {
                } else if new1 {
                    assert(s2[i2].children@[k2] == s1[i2].children@[k2]);
                    assert(s1[i2].children@[k2] == child);
                    assert(s1[c].has_parent);
                    assert(false);
                } else if new2 {
                    assert(s2[i1].children@[k1] == s1[i1].children@[k1]);
                    assert(s1[i1].children@[k1] == child);
                    assert(s1[c].has_parent);
                    assert(false);
                } else {
                    assert(s2[i1].children@[k1] == s1[i1].children@[k1]);
                    assert(s2[i2].children@[k2] == s1[i2].children@[k2]);
                }
            }
        }
        Ok(())
    }

    /// Overwrites one node's translation; the per-frame animation pass
    /// writes fields through these setters.
    pub fn set_position(&mut self, id: usize, v: nalgebra_glm::Vec3)
        requires
            old(self).wf(),
            id < old(self)@.len(),
        ensures
            final(self).wf(),
            final(self)@.len() == old(self)@.len(),
            forall|j: int|
                0 <= j < old(self)@.len() && j != id ==> final(self)@[j] == old(self)@[j],
            final(self)@[id as int] == (SceneNode { position: v, ..old(self)@[id as int] }),
    {
        self.nodes[id].position = v;
        proof {
            lemma_wf_same_structure(old(self)@, self@);
        }
    }

    /// Overwrites one node's rotation angles (pitch, yaw, roll; radians).
    pub fn set_rotation(&mut self, id: usize, v: nalgebra_glm::Vec3)
        requires
            old(self).wf(),
            id < old(self)@.len(),
        ensures
            final(self).wf(),
            final(self)@.len() == old(self)@.len(),
            forall|j: int|
                0 <= j < old(self)@.len() && j != id ==> final(self)@[j] == old(self)@[j],
            final(self)@[id as int] == (SceneNode { rotation: v, ..old(self)@[id as int] }),
    {
        self.nodes[id].rotation = v;
        proof {
            lemma_wf_same_structure(old(self)@, self@);
        }
    }

    /// Overwrites one node's local pivot: its rotation is applied about
    /// this point instead of the origin.
    pub fn set_reference_point(&mut self, id: usize, v: nalgebra_glm::Vec3)
        requires
            old(self).wf(),
            id < old(self)@.len(),
        ensures
            final(self).wf(),
            final(self)@.len() == old(self)@.len(),
            forall|j: int|
                0 <= j < old(self)@.len() && j != id ==> final(self)@[j] == old(self)@[j],
            final(self)@[id as int] == (SceneNode { reference_point: v, ..old(self)@[id as int] }),
    {
        self.nodes[id].reference_point = v;
        proof {
            lemma_wf_same_structure(old(self)@, self@);
        }
    }
}

/// Well-formedness depends only on the tree structure: two arenas of the
/// same length whose nodes agree on children and parent marks are equally
/// well formed, whatever their transform fields hold.
pub proof fn lemma_wf_same_structure(s1: Seq<SceneNode>, s2: Seq<SceneNode>)
    requires
        wf_nodes(s1),
        s1.len() == s2.len(),
        forall|j: int|
            0 <= j < s1.len()
                ==> #[trigger] s2[j].children@ == s1[j].children@
                    && s2[j].has_parent == s1[j].has_parent,
    ensures
        wf_nodes(s2),
{
    assert forall|i: int, k: int|
        0 <= i < s2.len() && 0 <= k < s2[i].children@.len()
            implies i < #[trigger] s2[i].children@[k] && s2[i].children@[k] < s2.len()
            && s2[#[trigger] s2[i].children@[k] as int].has_parent by {
        assert(s2[i].children@ == s1[i].children@);
        let d = s1[i].children@[k] as int;
        assert(i < s1[i].children@[k] && s1[i].children@[k] < s1.len());
        assert(s2[d].children@ == s1[d].children@);
        assert(s1[d].has_parent);
    }
    assert forall|i1: int, k1: int, i2: int, k2: int|
        #![trigger s2[i1].children@[k1], s2[i2].children@[k2]]
        0 <= i1 < s2.len() && 0 <= k1 < s2[i1].children@.len()
            && 0 <= i2 < s2.len() && 0 <= k2 < s2[i2].children@.len()
            && s2[i1].children@[k1] == s2[i2].children@[k2]
            implies i1 == i2 && k1 == k2 by {
        assert(s2[i1].children@ == s1[i1].children@);
        assert(s2[i2].children@ == s1[i2].children@);
    }
}

} // verus!
