//! A read-only export of the graph for an external diagram renderer: a
//! preorder list of node snapshots together with the parent-to-operand
//! edges, as positions in that list.

use crate::value::{operation_of, Operands, Operation, Value};
use vstd::prelude::*;

verus! {

/// A read-only snapshot of one node, as handed to a renderer.
pub struct GraphNode {
    pub label: String,
    pub value: u64,
    pub grad: u64,
    pub operation: Option<Operation>,
}

/// The mathematical content of one exported snapshot.
pub ghost struct GraphNodeModel {
    pub label: Seq<char>,
    pub value: u64,
    pub grad: u64,
    pub operation: Option<Operation>,
}

/// The snapshot a given node must export.
pub open spec fn node_model(v: Value) -> GraphNodeModel {
    GraphNodeModel { label: v.label@, value: v.value, grad: v.grad, operation: operation_of(v) }
}

/// The full preorder snapshot list of a tree: the root first, then the
/// subtree of each operand in order.
pub open spec fn rows_of(v: Value) -> Seq<GraphNodeModel>
    decreases v,
{
    seq![node_model(v)] + match v.operands {
        Operands::Leaf => Seq::<GraphNodeModel>::empty(),
        Operands::Add(l, r) => rows_of(*l) + rows_of(*r),
        Operands::Mul(l, r) => rows_of(*l) + rows_of(*r),
        Operands::Tanh(l) => rows_of(*l),
    }
}

/// The parent-to-operand edges of a tree whose root stands at position
/// `base` of the preorder list: each edge pairs the preorder position of a
/// node with the preorder position of one of its operands, parent first,
/// and the edges come in preorder as well.
pub open spec fn edges_of(v: Value, base: int) -> Seq<(int, int)>
    decreases v,
{
    match v.operands {
        Operands::Leaf => Seq::<(int, int)>::empty(),
        Operands::Add(l, r) => seq![(base, base + 1)] + edges_of(*l, base + 1) + seq![
            (base, base + 1 + rows_of(*l).len()),
        ] + edges_of(*r, base + 1 + rows_of(*l).len() as int),
        Operands::Mul(l, r) => seq![(base, base + 1)] + edges_of(*l, base + 1) + seq![
            (base, base + 1 + rows_of(*l).len()),
        ] + edges_of(*r, base + 1 + rows_of(*l).len() as int),
        Operands::Tanh(l) => seq![(base, base + 1)] + edges_of(*l, base + 1),
    }
}

/// Whether an exported snapshot carries exactly the given content.
pub open spec fn matches_row(n: GraphNode, r: GraphNodeModel) -> bool {
    &&& n.label@ == r.label
    &&& n.value == r.value
    &&& n.grad == r.grad
    &&& n.operation == r.operation
}

/// Whether the part of an exported snapshot list that starts at position
/// `k` carries exactly the given contents, position by position, and ends
/// the list.
pub open spec fn matches_rows_at(s: Seq<GraphNode>, k: int, r: Seq<GraphNodeModel>) -> bool {
    &&& s.len() == k + r.len()
    &&& forall|i: int| 0 <= i < r.len() ==> matches_row(s[k + i], #[trigger] r[i])
}

/// Whether an exported edge pair carries exactly the given positions.
pub open spec fn matches_edge(e: (usize, usize), p: (int, int)) -> bool {
    e.0 == p.0 && e.1 == p.1
}

/// Whether the part of an exported edge list that starts at position `k`
/// carries exactly the given position pairs, and ends the list.
pub open spec fn matches_edges_at(s: Seq<(usize, usize)>, k: int, r: Seq<(int, int)>) -> bool {
    &&& s.len() == k + r.len()
    &&& forall|i: int| 0 <= i < r.len() ==> matches_edge(s[k + i], #[trigger] r[i])
}

/// Stitches the snapshot lists of a root row and the subtrees of its (up
/// to two) operands, written one after the other, into the snapshot list
/// of the whole tree.
proof fn lemma_rows_assemble(
    n_old: Seq<GraphNode>,
    n0: Seq<GraphNode>,
    n2: Seq<GraphNode>,
    nf: Seq<GraphNode>,
    row: GraphNodeModel,
    rl: Seq<GraphNodeModel>,
    rr: Seq<GraphNodeModel>,
)
    requires
        n0.len() == n_old.len() + 1,
        forall|j: int| 0 <= j < n_old.len() ==> n0[j] == #[trigger] n_old[j],
        matches_row(n0[n_old.len() as int], row),
        matches_rows_at(n2, n0.len() as int, rl),
        forall|j: int| 0 <= j < n0.len() ==> n2[j] == #[trigger] n0[j],
        matches_rows_at(nf, n2.len() as int, rr),
        forall|j: int| 0 <= j < n2.len() ==> nf[j] == #[trigger] n2[j],
    ensures
        forall|j: int| 0 <= j < n_old.len() ==> nf[j] == #[trigger] n_old[j],
        matches_rows_at(nf, n_old.len() as int, seq![row] + rl + rr),
{
    let all = seq![row] + rl + rr;
    let k = n_old.len() as int;
    assert forall|i: int| 0 <= i < all.len() implies matches_row(nf[k + i], #[trigger] all[i]) by {
        if i == 0 {
            assert(nf[k] == n2[k]);
            assert(n2[k] == n0[k]);
        } else if i < 1 + rl.len() {
            assert(nf[k + i] == n2[k + i]);
            assert(all[i] == rl[i - 1]);
            assert(matches_row(n2[n0.len() + (i - 1)], rl[i - 1]));
        } else {
            assert(all[i] == rr[i - 1 - rl.len()]);
            assert(matches_row(nf[n2.len() + (i - 1 - rl.len())], rr[i - 1 - rl.len()]));
        }
    }
}

/// Stitches the edge lists written for a node with two operands — the edge
/// to the first operand, the first subtree's edges, the edge to the second
/// operand, the second subtree's edges — into the edge list of the whole
/// tree.
proof fn lemma_edges_assemble(
    e_old: Seq<(usize, usize)>,
    e1: Seq<(usize, usize)>,
    e2: Seq<(usize, usize)>,
    e3: Seq<(usize, usize)>,
    ef: Seq<(usize, usize)>,
    f1: (int, int),
    el: Seq<(int, int)>,
    f2: (int, int),
    er: Seq<(int, int)>,
)
    requires
        e1.len() == e_old.len() + 1,
        forall|j: int| 0 <= j < e_old.len() ==> e1[j] == #[trigger] e_old[j],
        matches_edge(e1[e_old.len() as int], f1),
        matches_edges_at(e2, e1.len() as int, el),
        forall|j: int| 0 <= j < e1.len() ==> e2[j] == #[trigger] e1[j],
        e3.len() == e2.len() + 1,
        forall|j: int| 0 <= j < e2.len() ==> e3[j] == #[trigger] e2[j],
        matches_edge(e3[e2.len() as int], f2),
        matches_edges_at(ef, e3.len() as int, er),
        forall|j: int| 0 <= j < e3.len() ==> ef[j] == #[trigger] e3[j],
    ensures
        forall|j: int| 0 <= j < e_old.len() ==> ef[j] == #[trigger] e_old[j],
        matches_edges_at(ef, e_old.len() as int, seq![f1] + el + seq![f2] + er),
{
    let all = seq![f1] + el + seq![f2] + er;
    let k = e_old.len() as int;
    assert forall|i: int| 0 <= i < all.len() implies matches_edge(ef[k + i], #[trigger] all[i]) by {
        if i == 0 {
            assert(ef[k] == e3[k]);
            assert(e3[k] == e2[k]);
            assert(e2[k] == e1[k]);
        } else if i < 1 + el.len() {
            assert(all[i] == el[i - 1]);
            assert(ef[k + i] == e3[k + i]);
            assert(e3[k + i] == e2[k + i]);
            assert(matches_edge(e2[e1.len() + (i - 1)], el[i - 1]));
        } else if i == 1 + el.len() {
            assert(all[i] == f2);
            assert(ef[k + i] == e3[k + i]);
        } else {
            assert(all[i] == er[i - 2 - el.len()]);
            assert(matches_edge(ef[e3.len() + (i - 2 - el.len())], er[i - 2 - el.len()]));
        }
    }
}

/// As [`lemma_edges_assemble`], for a node with a single operand.
proof fn lemma_edges_assemble_one(
    e_old: Seq<(usize, usize)>,
    e1: Seq<(usize, usize)>,
    ef: Seq<(usize, usize)>,
    f1: (int, int),
    el: Seq<(int, int)>,
)
    requires
        e1.len() == e_old.len() + 1,
        forall|j: int| 0 <= j < e_old.len() ==> e1[j] == #[trigger] e_old[j],
        matches_edge(e1[e_old.len() as int], f1),
        matches_edges_at(ef, e1.len() as int, el),
        forall|j: int| 0 <= j < e1.len() ==> ef[j] == #[trigger] e1[j],
    ensures
        forall|j: int| 0 <= j < e_old.len() ==> ef[j] == #[trigger] e_old[j],
        matches_edges_at(ef, e_old.len() as int, seq![f1] + el),
{
    let all = seq![f1] + el;
    let k = e_old.len() as int;
    assert forall|i: int| 0 <= i < all.len() implies matches_edge(ef[k + i], #[trigger] all[i]) by {
        if i == 0 {
            assert(ef[k] == e1[k]);
        } else {
            assert(all[i] == el[i - 1]);
            assert(matches_edge(ef[e1.len() + (i - 1)], el[i - 1]));
        }
    }
}

fn export_go(v: &Value, nodes: &mut Vec<GraphNode>, edges: &mut Vec<(usize, usize)>)
    ensures
        forall|j: int| 0 <= j < old(nodes)@.len() ==> final(nodes)@[j] == #[trigger] old(
            nodes,
        )@[j],
        matches_rows_at(final(nodes)@, old(nodes)@.len() as int, rows_of(*v)),
        forall|j: int| 0 <= j < old(edges)@.len() ==> final(edges)@[j] == #[trigger] old(
            edges,
        )@[j],
        matches_edges_at(
            final(edges)@,
            old(edges)@.len() as int,
            edges_of(*v, old(nodes)@.len() as int),
        ),
    decreases v,
{
    let ghost n_old = nodes@;
    let ghost e_old = edges@;
    let my: usize = nodes.len();
    nodes.push(
        GraphNode {
            label: v.label.clone(),
            value: v.value,
            grad: v.grad,
            operation: v.operation(),
        },
    );
    let ghost n0 = nodes@;
    match &v.operands {
        Operands::Leaf => {
            proof {
                lemma_rows_assemble(
                    n_old,
                    n0,
                    n0,
                    n0,
                    node_model(*v),
                    Seq::<GraphNodeModel>::empty(),
                    Seq::<GraphNodeModel>::empty(),
                );
                assert(rows_of(*v) =~= seq![node_model(*v)]);
            }
        },
        Operands::Add(l, r) => {
            edges.push((my, nodes.len()));
            let ghost e1 = edges@;
            export_go(&**l, nodes, edges);
            let ghost n2 = nodes@;
            let ghost e2 = edges@;
            edges.push((my, nodes.len()));
            let ghost e3 = edges@;
            export_go(&**r, nodes, edges);
            proof {
                lemma_rows_assemble(n_old, n0, n2, nodes@, node_model(*v), rows_of(**l), rows_of(**r));
                assert(rows_of(*v) =~= seq![node_model(*v)] + rows_of(**l) + rows_of(**r));
                let base = n_old.len() as int;
                lemma_edges_assemble(
                    e_old,
                    e1,
                    e2,
                    e3,
                    edges@,
                    (base, base + 1),
                    edges_of(**l, base + 1),
                    (base, base + 1 + rows_of(**l).len()),
                    edges_of(**r, base + 1 + rows_of(**l).len() as int),
                );
                assert(edges_of(*v, base) =~= seq![(base, base + 1)] + edges_of(**l, base + 1)
                    + seq![(base, base + 1 + rows_of(**l).len())] + edges_of(
                    **r,
                    base + 1 + rows_of(**l).len() as int,
                ));
            }
        },
        Operands::Mul(l, r) => {
            edges.push((my, nodes.len()));
            let ghost e1 = edges@;
            export_go(&**l, nodes, edges);
            let ghost n2 = nodes@;
            let ghost e2 = edges@;
            edges.push((my, nodes.len()));
            let ghost e3 = edges@;
            export_go(&**r, nodes, edges);
            proof {
                lemma_rows_assemble(n_old, n0, n2, nodes@, node_model(*v), rows_of(**l), rows_of(**r));
                assert(rows_of(*v) =~= seq![node_model(*v)] + rows_of(**l) + rows_of(**r));
                let base = n_old.len() as int;
                lemma_edges_assemble(
                    e_old,
                    e1,
                    e2,
                    e3,
                    edges@,
                    (base, base + 1),
                    edges_of(**l, base + 1),
                    (base, base + 1 + rows_of(**l).len()),
                    edges_of(**r, base + 1 + rows_of(**l).len() as int),
                );
                assert(edges_of(*v, base) =~= seq![(base, base + 1)] + edges_of(**l, base + 1)
                    + seq![(base, base + 1 + rows_of(**l).len())] + edges_of(
                    **r,
                    base + 1 + rows_of(**l).len() as int,
                ));
            }
        },
        Operands::Tanh(l) => {
            edges.push((my, nodes.len()));
            let ghost e1 = edges@;
            export_go(&**l, nodes, edges);
            proof {
                lemma_rows_assemble(
                    n_old,
                    n0,
                    nodes@,
                    nodes@,
                    node_model(*v),
                    rows_of(**l),
                    Seq::<GraphNodeModel>::empty(),
                );
                assert(rows_of(*v) =~= seq![node_model(*v)] + rows_of(**l));
                let base = n_old.len() as int;
                lemma_edges_assemble_one(
                    e_old,
                    e1,
                    edges@,
                    (base, base + 1),
                    edges_of(**l, base + 1),
                );
                assert(edges_of(*v, base) =~= seq![(base, base + 1)] + edges_of(**l, base + 1));
            }
        },
    }
}

impl Value {
    /// Walks the tree from this node and returns, for every reachable node
    /// in preorder, a read-only snapshot of its label, value, gradient and
    /// operation tag, together with every parent-to-operand edge as a pair
    /// of positions in that list. The walk reads the graph and changes
    /// nothing.
    pub fn export(&self) -> (out: (Vec<GraphNode>, Vec<(usize, usize)>))
        ensures
            matches_rows_at(out.0@, 0, rows_of(*self)),
            matches_edges_at(out.1@, 0, edges_of(*self, 0)),
    {
        let mut nodes: Vec<GraphNode> = Vec::new();
        let mut edges: Vec<(usize, usize)> = Vec::new();
        export_go(self, &mut nodes, &mut edges);
        (nodes, edges)
    }
}

} // verus!
