//! Laws of the engine: what a backward pass writes at each kind of node,
//! that a second pass writes the same gradients again, and that the update
//! pass touches values only.

use crate::engine::{backward_rel, updated_rel};
use crate::value::{Operands, Value};
use vstd::prelude::*;

verus! {

/// Whether two trees have the same shape and carry the same gradient at
/// every pair of corresponding nodes.
pub open spec fn same_gradients(a: Value, b: Value) -> bool
    decreases a,
{
    &&& b.grad == a.grad
    &&& match (a.operands, b.operands) {
        (Operands::Leaf, Operands::Leaf) => true,
        (Operands::Add(a1, b1), Operands::Add(a2, b2)) => {
            same_gradients(*a1, *a2) && same_gradients(*b1, *b2)
        },
        (Operands::Mul(a1, b1), Operands::Mul(a2, b2)) => {
            same_gradients(*a1, *a2) && same_gradients(*b1, *b2)
        },
        (Operands::Tanh(a1), Operands::Tanh(a2)) => same_gradients(*a1, *a2),
        _ => false,
    }
}

/// Law: a backward pass through a sum node hands the node's incoming
/// gradient to both operands unchanged — the derivative of a sum with
/// respect to either addend is one.
pub proof fn lemma_backward_add<M: Fn(u64, u64) -> u64, T: Fn(u64) -> u64>(
    pre: Value,
    g: u64,
    post: Value,
    m: M,
    t: T,
)
    requires
        backward_rel(pre, g, post, m, t),
        pre.operands is Add,
    ensures
        (post.operands matches Operands::Add(a2, b2) && a2.grad == g && b2.grad == g),
{
}

/// Law: a backward pass through a product node gives each operand the
/// supplied multiplication applied to the incoming gradient and the other
/// operand's value, in that order.
pub proof fn lemma_backward_mul<M: Fn(u64, u64) -> u64, T: Fn(u64) -> u64>(
    pre: Value,
    g: u64,
    post: Value,
    m: M,
    t: T,
)
    requires
        backward_rel(pre, g, post, m, t),
        pre.operands is Mul,
    ensures
        (match (pre.operands, post.operands) {
            (Operands::Mul(a1, b1), Operands::Mul(a2, b2)) => {
                &&& call_ensures(m, (g, b1.value), a2.grad)
                &&& call_ensures(m, (g, a1.value), b2.grad)
            },
            _ => false,
        }),
{
}

/// Law: a backward pass through a hyperbolic-tangent node gives the
/// operand the supplied multiplication applied to the supplied derivative
/// factor of the node's own value — conventionally one minus its square —
/// and the incoming gradient, in that order.
pub proof fn lemma_backward_tanh<M: Fn(u64, u64) -> u64, T: Fn(u64) -> u64>(
    pre: Value,
    g: u64,
    post: Value,
    m: M,
    t: T,
)
    requires
        backward_rel(pre, g, post, m, t),
        pre.operands is Tanh,
    ensures
        (match post.operands {
            Operands::Tanh(a2) => exists|d: u64|
                #[trigger] call_ensures(t, (pre.value,), d) && call_ensures(m, (d, g), a2.grad),
            _ => false,
        }),
{
}

/// Law: a backward pass started on a leaf terminates at once and touches
/// nothing but that leaf's gradient, which becomes the seed; there is no
/// other node to mutate.
pub proof fn lemma_backward_leaf<M: Fn(u64, u64) -> u64, T: Fn(u64) -> u64>(
    pre: Value,
    g: u64,
    post: Value,
    m: M,
    t: T,
)
    requires
        backward_rel(pre, g, post, m, t),
        pre.operands is Leaf,
    ensures
        post.operands is Leaf,
        post.value == pre.value,
        post.label == pre.label,
        post.grad == g,
{
}

/// Whether two trees have the same shape and carry the same value and the
/// same label at every pair of corresponding nodes.
pub open spec fn same_values(a: Value, b: Value) -> bool
    decreases a,
{
    &&& b.value == a.value
    &&& b.label == a.label
    &&& match (a.operands, b.operands) {
        (Operands::Leaf, Operands::Leaf) => true,
        (Operands::Add(a1, b1), Operands::Add(a2, b2)) => {
            same_values(*a1, *a2) && same_values(*b1, *b2)
        },
        (Operands::Mul(a1, b1), Operands::Mul(a2, b2)) => {
            same_values(*a1, *a2) && same_values(*b1, *b2)
        },
        (Operands::Tanh(a1), Operands::Tanh(a2)) => same_values(*a1, *a2),
        _ => false,
    }
}

/// Law: a backward pass writes gradients and nothing else — every node
/// keeps its value and its label, the tree keeps its shape, and the root
/// keeps the seed it was given.
pub proof fn lemma_backward_keeps_values<M: Fn(u64, u64) -> u64, T: Fn(u64) -> u64>(
    pre: Value,
    g: u64,
    post: Value,
    m: M,
    t: T,
)
    requires
        backward_rel(pre, g, post, m, t),
    ensures
        same_values(pre, post),
        post.grad == g,
    decreases pre,
{
    match (pre.operands, post.operands) {
        (Operands::Add(a1, b1), Operands::Add(a2, b2)) => {
            lemma_backward_keeps_values(*a1, g, *a2, m, t);
            lemma_backward_keeps_values(*b1, g, *b2, m, t);
        },
        (Operands::Mul(a1, b1), Operands::Mul(a2, b2)) => {
            lemma_backward_keeps_values(*a1, a2.grad, *a2, m, t);
            lemma_backward_keeps_values(*b1, b2.grad, *b2, m, t);
        },
        (Operands::Tanh(a1), Operands::Tanh(a2)) => {
            lemma_backward_keeps_values(*a1, a2.grad, *a2, m, t);
        },
        _ => {},
    }
}

/// Law: in the tree model no gradient accumulates, so running a second
/// backward pass without re-seeding writes the very same gradients again.
/// Stated for deterministic arithmetic: whenever the supplied operations
/// can only return one result on equal arguments, the trees after the
/// first and the second pass carry identical gradients everywhere.
pub proof fn lemma_backward_twice_same<M: Fn(u64, u64) -> u64, T: Fn(u64) -> u64>(
    pre: Value,
    g: u64,
    p1: Value,
    p2: Value,
    m: M,
    t: T,
)
    requires
        forall|a: u64, b: u64, r1: u64, r2: u64|
            call_ensures(m, (a, b), r1) && call_ensures(m, (a, b), r2) ==> r1 == r2,
        forall|a: u64, r1: u64, r2: u64|
            call_ensures(t, (a,), r1) && call_ensures(t, (a,), r2) ==> r1 == r2,
        backward_rel(pre, g, p1, m, t),
        backward_rel(p1, g, p2, m, t),
    ensures
        same_gradients(p1, p2),
    decreases pre,
{
    match (pre.operands, p1.operands, p2.operands) {
        (Operands::Add(a1, b1), Operands::Add(a2, b2), Operands::Add(a3, b3)) => {
            lemma_backward_twice_same(*a1, g, *a2, *a3, m, t);
            lemma_backward_twice_same(*b1, g, *b2, *b3, m, t);
        },
        (Operands::Mul(a1, b1), Operands::Mul(a2, b2), Operands::Mul(a3, b3)) => {
            reveal_with_fuel(backward_rel, 2);
            assert(b2.value == b1.value);
            assert(a2.value == a1.value);
            assert(a3.grad == a2.grad);
            assert(b3.grad == b2.grad);
            lemma_backward_twice_same(*a1, a2.grad, *a2, *a3, m, t);
            lemma_backward_twice_same(*b1, b2.grad, *b2, *b3, m, t);
        },
        (Operands::Tanh(a1), Operands::Tanh(a2), Operands::Tanh(a3)) => {
            let d1 = choose|d: u64|
                #[trigger] call_ensures(t, (pre.value,), d) && call_ensures(m, (d, g), a2.grad);
            let d2 = choose|d: u64|
                #[trigger] call_ensures(t, (p1.value,), d) && call_ensures(m, (d, g), a3.grad);
            reveal_with_fuel(backward_rel, 2);
            assert(p1.value == pre.value);
            assert(d2 == d1);
            assert(a3.grad == a2.grad);
            lemma_backward_twice_same(*a1, a2.grad, *a2, *a3, m, t);
        },
        _ => {},
    }
}

/// Law: the update pass rewrites values only — after it, the tree has the
/// same shape and the very same gradient at every node as before.
pub proof fn lemma_apply_grad_keeps_gradients<S: Fn(u64, u64) -> u64>(
    pre: Value,
    post: Value,
    s: S,
)
    requires
        updated_rel(pre, post, s),
    ensures
        same_gradients(pre, post),
    decreases pre,
{
    match (pre.operands, post.operands) {
        (Operands::Add(a1, b1), Operands::Add(a2, b2)) => {
            lemma_apply_grad_keeps_gradients(*a1, *a2, s);
            lemma_apply_grad_keeps_gradients(*b1, *b2, s);
        },
        (Operands::Mul(a1, b1), Operands::Mul(a2, b2)) => {
            lemma_apply_grad_keeps_gradients(*a1, *a2, s);
            lemma_apply_grad_keeps_gradients(*b1, *b2, s);
        },
        (Operands::Tanh(a1), Operands::Tanh(a2)) => {
            lemma_apply_grad_keeps_gradients(*a1, *a2, s);
        },
        _ => {},
    }
}

} // verus!
