//! The backward engine: a single depth-first pass that writes the local
//! derivative of each operation into its operands, and the gradient-descent
//! update pass.

use crate::value::{Operands, Value};
use vstd::prelude::*;

verus! {

/// How one backward pass relates the tree before (`pre`) and after (`post`)
/// the call, given the gradient `g` arriving at the root of the subtree,
/// the supplied multiplication `m` on scalar words, and the supplied
/// derivative factor `t` (for a hyperbolic-tangent output `v`, `t(v)` is
/// the local derivative, conventionally one minus the square of `v`).
///
/// Values, labels and the shape of the tree are unchanged; the root's
/// gradient becomes `g`; and each operand's gradient is written exactly
/// once, by the local rule of its parent's operation:
/// - a sum passes `g` through to both operands;
/// - a product gives each operand `m` applied to `g` and the other
///   operand's value, in that order;
/// - a hyperbolic tangent gives its operand `m` applied to the factor
///   `t(v)` and `g`, in that order, where `v` is the parent's own value.
pub open spec fn backward_rel<M: Fn(u64, u64) -> u64, T: Fn(u64) -> u64>(
    pre: Value,
    g: u64,
    post: Value,
    m: M,
    t: T,
) -> bool
    decreases pre,
{
    &&& post.value == pre.value
    &&& post.label == pre.label
    &&& post.grad == g
    &&& match (pre.operands, post.operands) {
        (Operands::Leaf, Operands::Leaf) => true,
        (Operands::Add(a1, b1), Operands::Add(a2, b2)) => {
            &&& a2.grad == g
            &&& b2.grad == g
            &&& backward_rel(*a1, g, *a2, m, t)
            &&& backward_rel(*b1, g, *b2, m, t)
        },
        (Operands::Mul(a1, b1), Operands::Mul(a2, b2)) => {
            &&& call_ensures(m, (g, b1.value), a2.grad)
            &&& call_ensures(m, (g, a1.value), b2.grad)
            &&& backward_rel(*a1, a2.grad, *a2, m, t)
            &&& backward_rel(*b1, b2.grad, *b2, m, t)
        },
        (Operands::Tanh(a1), Operands::Tanh(a2)) => {
            &&& (exists|d: u64|
                #[trigger] call_ensures(t, (pre.value,), d) && call_ensures(m, (d, g), a2.grad))
            &&& backward_rel(*a1, a2.grad, *a2, m, t)
        },
        _ => false,
    }
}

/// How one update pass relates the tree before and after the call, given
/// the supplied step `s` on scalar words: every node's value becomes `s`
/// applied to its old value and its old gradient (conventionally the value
/// minus the gradient scaled by a learning rate), and gradients, labels and
/// the shape of the tree are unchanged.
pub open spec fn updated_rel<S: Fn(u64, u64) -> u64>(pre: Value, post: Value, s: S) -> bool
    decreases pre,
{
    &&& call_ensures(s, (pre.value, pre.grad), post.value)
    &&& post.label == pre.label
    &&& post.grad == pre.grad
    &&& match (pre.operands, post.operands) {
        (Operands::Leaf, Operands::Leaf) => true,
        (Operands::Add(a1, b1), Operands::Add(a2, b2)) => {
            updated_rel(*a1, *a2, s) && updated_rel(*b1, *b2, s)
        },
        (Operands::Mul(a1, b1), Operands::Mul(a2, b2)) => {
            updated_rel(*a1, *a2, s) && updated_rel(*b1, *b2, s)
        },
        (Operands::Tanh(a1), Operands::Tanh(a2)) => updated_rel(*a1, *a2, s),
        _ => false,
    }
}

fn backward_go<M: Fn(u64, u64) -> u64 + Copy, T: Fn(u64) -> u64 + Copy>(
    node: Value,
    g: u64,
    times: M,
    one_minus_sq: T,
) -> (r: Value)
    requires
        forall|a: u64, b: u64| #[trigger] call_requires(times, (a, b)),
        forall|a: u64| #[trigger] call_requires(one_minus_sq, (a,)),
    ensures
        backward_rel(node, g, r, times, one_minus_sq),
    decreases node,
{
    let Value { value, grad: _, label, operands } = node;
    match operands {
        Operands::Leaf => Value { value, grad: g, label, operands: Operands::Leaf },
        Operands::Add(l, rt) => {
            let nl = backward_go(*l, g, times, one_minus_sq);
            let nr = backward_go(*rt, g, times, one_minus_sq);
            Value {
                value,
                grad: g,
                label,
                operands: Operands::Add(Box::new(nl), Box::new(nr)),
            }
        },
        Operands::Mul(l, rt) => {
            let ga = times(g, rt.value);
            let gb = times(g, l.value);
            let nl = backward_go(*l, ga, times, one_minus_sq);
            let nr = backward_go(*rt, gb, times, one_minus_sq);
            Value {
                value,
                grad: g,
                label,
                operands: Operands::Mul(Box::new(nl), Box::new(nr)),
            }
        },
        Operands::Tanh(l) => {
            let d = one_minus_sq(value);
            let gc = times(d, g);
            let nl = backward_go(*l, gc, times, one_minus_sq);
            Value { value, grad: g, label, operands: Operands::Tanh(Box::new(nl)) }
        },
    }
}

impl Value {
    /// Runs one backward pass from this node, whose gradient the caller has
    /// seeded (conventionally to the encoding of one, meaning the root with
    /// respect to itself). The caller supplies the multiplication `times` and
    /// the hyperbolic-tangent derivative factor `one_minus_sq` on scalar
    /// words; [`backward_rel`] states exactly which gradient every reachable
    /// node receives, and that nothing else changes.
    pub fn backward<M: Fn(u64, u64) -> u64 + Copy, T: Fn(u64) -> u64 + Copy>(
        self,
        times: M,
        one_minus_sq: T,
    ) -> (r: Value)
        requires
            forall|a: u64, b: u64| #[trigger] call_requires(times, (a, b)),
            forall|a: u64| #[trigger] call_requires(one_minus_sq, (a,)),
        ensures
            backward_rel(self, self.grad, r, times, one_minus_sq),
    {
        let g = self.grad;
        backward_go(self, g, times, one_minus_sq)
    }

    /// Runs one gradient-descent step over this node and every node below
    /// it. The caller supplies the update rule `step` on scalar words,
    /// taking a node's value and gradient to its new value (conventionally
    /// the value minus the gradient scaled by a learning rate);
    /// [`updated_rel`] states that every node's value is rewritten by that
    /// rule and that gradients, labels and the shape are unchanged.
    pub fn apply_grad<S: Fn(u64, u64) -> u64 + Copy>(self, step: S) -> (r: Value)
        requires
            forall|v: u64, g: u64| #[trigger] call_requires(step, (v, g)),
        ensures
            updated_rel(self, r, step),
        decreases self,
    {
        let Value { value, grad, label, operands } = self;
        let nv = step(value, grad);
        match operands {
            Operands::Leaf => Value { value: nv, grad, label, operands: Operands::Leaf },
            Operands::Add(l, rt) => {
                let nl = l.apply_grad(step);
                let nr = rt.apply_grad(step);
                Value {
                    value: nv,
                    grad,
                    label,
                    operands: Operands::Add(Box::new(nl), Box::new(nr)),
                }
            },
            Operands::Mul(l, rt) => {
                let nl = l.apply_grad(step);
                let nr = rt.apply_grad(step);
                Value {
                    value: nv,
                    grad,
                    label,
                    operands: Operands::Mul(Box::new(nl), Box::new(nr)),
                }
            },
            Operands::Tanh(l) => {
                let nl = l.apply_grad(step);
                Value { value: nv, grad, label, operands: Operands::Tanh(Box::new(nl)) }
            },
        }
    }
}

} // verus!
