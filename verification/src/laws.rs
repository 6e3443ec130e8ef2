//! Laws of the traversal, stated and proved once and for all: what a
//! group node contributes, how the accumulated transform reaches a
//! child's draw call, and how attaching a child extends a later
//! traversal.

use vstd::prelude::*;

use crate::graph::{children_in_range, SceneNode};
use crate::traversal::{
    children_draws, children_visits, node_draws, node_local, own_draw, visit_seq, DrawCall,
};
use crate::linalg::mat_mul_of;

verus! {

/// A node without a drawable issues no draw call of its own, but its
/// children are still visited, and drawn under the accumulated transform
/// `acc * M_i` exactly as a drawable node's children would be.
pub proof fn lemma_group_node_draws(
    nodes: Seq<SceneNode>,
    i: usize,
    vp: nalgebra_glm::Mat4,
    acc: nalgebra_glm::Mat4,
)
    requires
        children_in_range(nodes),
        i < nodes.len(),
        nodes[i as int].drawable is None,
    ensures
        node_draws(nodes, i, vp, acc) == children_draws(
            nodes,
            i,
            nodes[i as int].children@.len() as int,
            vp,
            mat_mul_of(acc, node_local(nodes[i as int])),
        ),
{
    assert(own_draw(nodes, i, vp, acc) =~= Seq::<DrawCall>::empty());
    assert(node_draws(nodes, i, vp, acc) =~= children_draws(
        nodes,
        i,
        nodes[i as int].children@.len() as int,
        vp,
        mat_mul_of(acc, node_local(nodes[i as int])),
    ));
}

/// A drawable node's own draw call comes first, before any child's, and
/// carries the two matrices the renderer needs: the plain model matrix
/// `M_i` and the combined matrix `(VP * A) * M_i`.
pub proof fn lemma_drawable_node_first(
    nodes: Seq<SceneNode>,
    i: usize,
    vp: nalgebra_glm::Mat4,
    acc: nalgebra_glm::Mat4,
)
    requires
        children_in_range(nodes),
        i < nodes.len(),
        nodes[i as int].drawable is Some,
    ensures
        node_draws(nodes, i, vp, acc).len() >= 1,
        node_draws(nodes, i, vp, acc)[0] == (DrawCall {
            vao_id: nodes[i as int].drawable.unwrap(),
            index_count: nodes[i as int].index_count,
            model_view_projection: mat_mul_of(mat_mul_of(vp, acc), node_local(nodes[i as int])),
            model: node_local(nodes[i as int]),
        }),
{
    assert(own_draw(nodes, i, vp, acc).len() == 1);
}

/// Transform accumulation over a two-level chain: a root with a single
/// leaf child draws the root with `(VP * A) * M_root` and the child with
/// `(VP * (A * M_root)) * M_child` — the child's matrix is exactly the
/// root's accumulation applied before its own local transform.
pub proof fn lemma_chain_draws(
    nodes: Seq<SceneNode>,
    r: usize,
    c: usize,
    vp: nalgebra_glm::Mat4,
    acc: nalgebra_glm::Mat4,
)
    requires
        children_in_range(nodes),
        r < nodes.len(),
        c < nodes.len(),
        nodes[r as int].children@ == seq![c],
        nodes[c as int].children@ == Seq::<usize>::empty(),
        nodes[r as int].drawable is Some,
        nodes[c as int].drawable is Some,
    ensures
        node_draws(nodes, r, vp, acc) == seq![
            (DrawCall {
                vao_id: nodes[r as int].drawable.unwrap(),
                index_count: nodes[r as int].index_count,
                model_view_projection: mat_mul_of(mat_mul_of(vp, acc), node_local(nodes[r as int])),
                model: node_local(nodes[r as int]),
            }),
            (DrawCall {
                vao_id: nodes[c as int].drawable.unwrap(),
                index_count: nodes[c as int].index_count,
                model_view_projection: mat_mul_of(
                    mat_mul_of(vp, mat_mul_of(acc, node_local(nodes[r as int]))),
                    node_local(nodes[c as int]),
                ),
                model: node_local(nodes[c as int]),
            }),
        ],
{
    let acc2 = mat_mul_of(acc, node_local(nodes[r as int]));
    assert(nodes[r as int].children@[0] == c);
    assert(children_draws(nodes, c, 0, vp, mat_mul_of(acc2, node_local(nodes[c as int])))
        =~= Seq::<DrawCall>::empty());
    assert(node_draws(nodes, c, vp, acc2) =~= own_draw(nodes, c, vp, acc2));
    assert(children_draws(nodes, r, 0, vp, acc2) =~= Seq::<DrawCall>::empty());
    assert(children_draws(nodes, r, 1, vp, acc2) =~= own_draw(nodes, c, vp, acc2));
    assert(node_draws(nodes, r, vp, acc) =~= own_draw(nodes, r, vp, acc) + own_draw(
        nodes,
        c,
        vp,
        acc2,
    ));
    assert(node_draws(nodes, r, vp, acc) =~= seq![
        (DrawCall {
            vao_id: nodes[r as int].drawable.unwrap(),
            index_count: nodes[r as int].index_count,
            model_view_projection: mat_mul_of(mat_mul_of(vp, acc), node_local(nodes[r as int])),
            model: node_local(nodes[r as int]),
        }),
        (DrawCall {
            vao_id: nodes[c as int].drawable.unwrap(),
            index_count: nodes[c as int].index_count,
            model_view_projection: mat_mul_of(
                mat_mul_of(vp, mat_mul_of(acc, node_local(nodes[r as int]))),
                node_local(nodes[c as int]),
            ),
            model: node_local(nodes[c as int]),
        }),
    ]);
}

/// The draw calls of a subtree are exactly its visitation's drawable
/// nodes, in the same order: the traverser issues GPU work in depth-first
/// visit order and skips precisely the nodes without a drawable.
pub proof fn lemma_draws_follow_visits(
    nodes: Seq<SceneNode>,
    i: usize,
    vp: nalgebra_glm::Mat4,
    acc: nalgebra_glm::Mat4,
)
    requires
        children_in_range(nodes),
        i < nodes.len(),
    ensures
        node_draws(nodes, i, vp, acc).map_values(|d: DrawCall| d.vao_id) == visit_seq(
            nodes,
            i,
        ).filter(|j: usize| nodes[j as int].drawable is Some).map_values(
            |j: usize| nodes[j as int].drawable.unwrap(),
        ),
    decreases nodes.len() - i, 1int, 0int,
{
    broadcast use vstd::seq_lib::group_seq_properties;

    let pred = (|j: usize| nodes[j as int].drawable is Some);
    let handle = (|j: usize| nodes[j as int].drawable.unwrap());
    let vao = (|d: DrawCall| d.vao_id);
    let n = nodes[i as int].children@.len() as int;
    let acc2 = mat_mul_of(acc, node_local(nodes[i as int]));
    lemma_children_draws_follow_visits(nodes, i, n, vp, acc2);
    let head = seq![i];
    assert(head.filter(pred) =~= if pred(i) {
        head
    } else {
        Seq::<usize>::empty()
    }) by {
        reveal_with_fuel(Seq::filter, 3);
    }
    assert(own_draw(nodes, i, vp, acc).map_values(vao) =~= head.filter(pred).map_values(handle));
    assert(visit_seq(nodes, i).filter(pred) =~= head.filter(pred) + children_visits(
        nodes,
        i,
        n,
    ).filter(pred));
    assert(visit_seq(nodes, i).filter(pred).map_values(handle) =~= head.filter(pred).map_values(
        handle,
    ) + children_visits(nodes, i, n).filter(pred).map_values(handle));
    assert(node_draws(nodes, i, vp, acc).map_values(vao) =~= own_draw(
        nodes,
        i,
        vp,
        acc,
    ).map_values(vao) + children_draws(nodes, i, n, vp, acc2).map_values(vao));
}

/// As [`lemma_draws_follow_visits`], for the first `k` children of node
/// `i`.
pub proof fn lemma_children_draws_follow_visits(
    nodes: Seq<SceneNode>,
    i: usize,
    k: int,
    vp: nalgebra_glm::Mat4,
    acc: nalgebra_glm::Mat4,
)
    requires
        children_in_range(nodes),
        i < nodes.len(),
        0 <= k <= nodes[i as int].children@.len(),
    ensures
        children_draws(nodes, i, k, vp, acc).map_values(|d: DrawCall| d.vao_id)
            == children_visits(nodes, i, k).filter(|j: usize| nodes[j as int].drawable is Some)
            .map_values(|j: usize| nodes[j as int].drawable.unwrap()),
    decreases nodes.len() - i, 0int, k,
{
    broadcast use vstd::seq_lib::group_seq_properties;

    let pred = (|j: usize| nodes[j as int].drawable is Some);
    let handle = (|j: usize| nodes[j as int].drawable.unwrap());
    let vao = (|d: DrawCall| d.vao_id);
    if k <= 0 {
        assert(children_draws(nodes, i, k, vp, acc).map_values(vao) =~= Seq::<u32>::empty());
        assert(children_visits(nodes, i, k).filter(pred) =~= Seq::<usize>::empty()) by {
            reveal_with_fuel(Seq::filter, 2);
        }
    } else {
        lemma_children_draws_follow_visits(nodes, i, k - 1, vp, acc);
        let c = nodes[i as int].children@[k - 1];
        assert(i < c && c < nodes.len());
        lemma_draws_follow_visits(nodes, c, vp, acc);
        assert(children_visits(nodes, i, k).filter(pred) =~= children_visits(
            nodes,
            i,
            k - 1,
        ).filter(pred) + visit_seq(nodes, c).filter(pred));
        assert(children_visits(nodes, i, k).filter(pred).map_values(handle) =~= children_visits(
            nodes,
            i,
            k - 1,
        ).filter(pred).map_values(handle) + visit_seq(nodes, c).filter(pred).map_values(handle));
        assert(children_draws(nodes, i, k, vp, acc).map_values(vao) =~= children_draws(
            nodes,
            i,
            k - 1,
            vp,
            acc,
        ).map_values(vao) + node_draws(nodes, c, vp, acc).map_values(vao));
    }
}

/// The visitation below node `i` reads only the child lists of nodes with
/// index `i` or greater: two arenas that agree there are visited alike.
pub proof fn lemma_visit_frame(s1: Seq<SceneNode>, s2: Seq<SceneNode>, i: usize)
    requires
        children_in_range(s1),
        children_in_range(s2),
        s1.len() == s2.len(),
        i < s1.len(),
        forall|j: int| i <= j < s1.len() ==> #[trigger] s2[j].children@ == s1[j].children@,
    ensures
        visit_seq(s2, i) == visit_seq(s1, i),
    decreases s1.len() - i, 1int, 0int,
{
    assert(s2[i as int].children@ == s1[i as int].children@);
    lemma_children_visits_frame(s1, s2, i, s1[i as int].children@.len() as int);
    assert(visit_seq(s2, i) =~= visit_seq(s1, i));
}

/// As [`lemma_visit_frame`], for the first `k` children of node `i`: the
/// two arenas need only agree on those `k` child entries and on every
/// child list strictly above `i`.
pub proof fn lemma_children_visits_frame(
    s1: Seq<SceneNode>,
    s2: Seq<SceneNode>,
    i: usize,
    k: int,
)
    requires
        children_in_range(s1),
        children_in_range(s2),
        s1.len() == s2.len(),
        i < s1.len(),
        0 <= k <= s1[i as int].children@.len(),
        k <= s2[i as int].children@.len(),
        forall|j: int|
            0 <= j < k ==> #[trigger] s2[i as int].children@[j] == s1[i as int].children@[j],
        forall|j: int| i < j < s1.len() ==> #[trigger] s2[j].children@ == s1[j].children@,
    ensures
        children_visits(s2, i, k) == children_visits(s1, i, k),
    decreases s1.len() - i, 0int, k,
{
    if k > 0 {
        lemma_children_visits_frame(s1, s2, i, k - 1);
        let c = s1[i as int].children@[k - 1];
        assert(s2[i as int].children@[k - 1] == c);
        assert(i < c && c < s1.len());
        lemma_visit_frame(s1, s2, c);
        assert(children_visits(s2, i, k) =~= children_visits(s1, i, k));
    } else {
        assert(children_visits(s2, i, k) =~= children_visits(s1, i, k));
    }
}

/// Attaching one child appends exactly that child's subtree to a later
/// traversal of the parent and disturbs nothing else: if `s2` is `s1`
/// with `c` pushed onto `p`'s child list, visiting `p` in `s2` visits
/// everything it visited in `s1`, in the same order, and then `c`'s
/// subtree as it stood in `s1`.  Attachment therefore preserves insertion
/// order exactly.
pub proof fn lemma_attach_extends_visit(
    s1: Seq<SceneNode>,
    s2: Seq<SceneNode>,
    p: usize,
    c: usize,
)
    requires
        children_in_range(s1),
        children_in_range(s2),
        s1.len() == s2.len(),
        p < c,
        c < s1.len(),
        s2[p as int].children@ == s1[p as int].children@.push(c),
        forall|j: int|
            0 <= j < s1.len() && j != p ==> #[trigger] s2[j].children@ == s1[j].children@,
    ensures
        visit_seq(s2, p) == visit_seq(s1, p) + visit_seq(s1, c),
{
    let n = s1[p as int].children@.len() as int;
    assert(s2[p as int].children@.len() == n + 1);
    lemma_children_visits_frame(s1, s2, p, n);
    assert(s2[p as int].children@[n] == c);
    assert(children_visits(s2, p, n + 1) == children_visits(s2, p, n) + visit_seq(s2, c));
    lemma_visit_frame(s1, s2, c);
    assert(visit_seq(s2, p) =~= visit_seq(s1, p) + visit_seq(s1, c));
}

} // verus!
