//! The gradient propagator: the reverse-mode backward walk.
//!
//! `propagate` seeds the root's gradient with `1.0` and descends
//! depth-first: each visited node assigns every child a gradient derived
//! from the node's operator and the node's own, already final, gradient,
//! then recurses into that child.  Every child receives the gradient its
//! parent's rule assigns, a leaf like any other node; the walk has no
//! special case for leaf children.
//!
//! Nodes own their children exclusively, so a graph is always a tree: to
//! reuse a value as an operand in two places a caller must clone it, and
//! each copy then carries the gradient of its own path.  The walk assigns
//! rather than accumulates, so multi-path reverse-mode gradients are not
//! computed.

use crate::node::{lemma_models_of, models_of, wf, NodeModel, OpKind, Value};
use crate::scalar::{fmul, fpow, fsub, mul_bits, pow_bits, sub_bits, ONE_BITS, ZERO_BITS};
use vstd::prelude::*;

verus! {

/// The children of a node's model, once it is known to have some.
pub open spec fn kids_of(m: NodeModel) -> Seq<NodeModel> {
    m.children->Some_0
}

/// The operand snapshot of a node's model, once it is known to have one.
pub open spec fn snap_of(m: NodeModel) -> Seq<u64> {
    m.operands_snapshot->Some_0
}

/// The gradient the backward walk assigns to child `i` of the node `m`,
/// when the node's own gradient is `g`: the reverse-mode chain rule,
/// applied per operator.
///
/// For `Mul` the other operand's snapshotted scalar is the local
/// derivative; for `Pow` the rule is `e * base^(e-1)` with the exponent
/// taken from the snapshot and the base from the base child's scalar (the
/// exponent child never receives a gradient); for `Exp` the node's own
/// scalar already equals the derivative, and it is assigned as is; for
/// `Tanh` the local derivative is `1 - data^2`.
pub open spec fn child_grad(m: NodeModel, g: u64, i: int) -> u64 {
    match m.operator {
        Some(OpKind::Add) => g,
        Some(OpKind::Mul) => mul_bits(snap_of(m)[1 - i], g),
        Some(OpKind::Pow) => mul_bits(
            mul_bits(snap_of(m)[1], pow_bits(kids_of(m)[0].data, sub_bits(snap_of(m)[1], ONE_BITS))),
            g,
        ),
        Some(OpKind::Exp) => m.data,
        Some(OpKind::Tanh) => mul_bits(sub_bits(ONE_BITS, mul_bits(m.data, m.data)), g),
        None => g,
    }
}

/// The node `m` after the backward walk has reached it with gradient `g`:
/// its own gradient becomes `g`, and each child subtree is recursively
/// propagated with the gradient the chain rule assigns it.  The
/// synthesized exponent child of `Pow` is left entirely untouched: it is a
/// constant, recorded for display only, and is not differentiated.
pub open spec fn propagated(m: NodeModel, g: u64) -> NodeModel
    decreases m,
{
    NodeModel {
        grad: g,
        children: match m.children {
            None => None,
            Some(cs) => Some(
                if cs.len() == 1 {
                    seq![propagated(cs[0], child_grad(m, g, 0))]
                } else if cs.len() == 2 {
                    if m.operator == Some(OpKind::Pow) {
                        seq![propagated(cs[0], child_grad(m, g, 0)), cs[1]]
                    } else {
                        seq![
                            propagated(cs[0], child_grad(m, g, 0)),
                            propagated(cs[1], child_grad(m, g, 1)),
                        ]
                    }
                } else {
                    cs
                },
            ),
        },
        ..m
    }
}

/// The backward walk: consumes a well-formed node, gives it gradient `g`,
/// and descends into its children as [`propagated`] states.
fn backward(node: Value, g: u64) -> (r: Value)
    requires
        wf(node@),
    ensures
        r@ == propagated(node@, g),
    decreases node,
{
    let ghost node0 = node;
    let Value { label, data, grad: _, operator, operands_snapshot, children } = node;
    match children {
        None => {
            Value { label, data, grad: g, operator, operands_snapshot, children: None }
        },
        Some(mut cs) => {
            proof {
                lemma_models_of(cs@);
            }
            let ghost kids = models_of(cs@);
            let op = operator.unwrap();
            let snap = operands_snapshot.unwrap();
            let new_children: Vec<Value> = match op {
                OpKind::Add => {
                    let c0 = cs.remove(0);
                    let c1 = cs.remove(0);
                    proof {
                        assert(decreases_to!(node0 => node0.children->Some_0@[0]));
                        assert(decreases_to!(node0 => node0.children->Some_0@[1]));
                    }
                    let r0 = backward(c0, g);
                    let r1 = backward(c1, g);
                    vec![r0, r1]
                },
                OpKind::Mul => {
                    let c0 = cs.remove(0);
                    let c1 = cs.remove(0);
                    let g0 = fmul(snap[1], g);
                    let g1 = fmul(snap[0], g);
                    proof {
                        assert(decreases_to!(node0 => node0.children->Some_0@[0]));
                        assert(decreases_to!(node0 => node0.children->Some_0@[1]));
                    }
                    let r0 = backward(c0, g0);
                    let r1 = backward(c1, g1);
                    vec![r0, r1]
                },
                OpKind::Pow => {
                    let c0 = cs.remove(0);
                    let c1 = cs.remove(0);
                    let e = snap[1];
                    let g0 = fmul(fmul(e, fpow(c0.data, fsub(e, ONE_BITS))), g);
                    proof {
                        assert(decreases_to!(node0 => node0.children->Some_0@[0]));
                    }
                    let r0 = backward(c0, g0);
                    vec![r0, c1]
                },
                OpKind::Exp => {
                    let c0 = cs.remove(0);
                    proof {
                        assert(decreases_to!(node0 => node0.children->Some_0@[0]));
                    }
                    let r0 = backward(c0, data);
                    vec![r0]
                },
                OpKind::Tanh => {
                    let c0 = cs.remove(0);
                    let g0 = fmul(fsub(ONE_BITS, fmul(data, data)), g);
                    proof {
                        assert(decreases_to!(node0 => node0.children->Some_0@[0]));
                    }
                    let r0 = backward(c0, g0);
                    vec![r0]
                },
            };
            proof {
                lemma_models_of(new_children@);
                assert(models_of(new_children@) =~= kids_of(propagated(node0@, g)));
            }
            Value {
                label,
                data,
                grad: g,
                operator: Some(op),
                operands_snapshot: Some(snap),
                children: Some(new_children),
            }
        },
    }
}

/// Seeds the root's gradient with `1.0` (the trivial self-derivative) and
/// runs the backward walk over the whole graph, assigning every node's
/// gradient in place.
pub fn propagate(root: &mut Value)
    requires
        wf(old(root)@),
    ensures
        final(root)@ == propagated(old(root)@, ONE_BITS),
{
    let mut taken = Value::new(ZERO_BITS, String::new());
    core::mem::swap(root, &mut taken);
    let done = backward(taken, ONE_BITS);
    *root = done;
}

} // verus!
