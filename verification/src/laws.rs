//! Laws of the engine, stated once and proved for every graph.

use crate::backprop::{child_grad, kids_of, propagated, snap_of};
use crate::node::{add_model, neg_model, wf, NodeModel, OpKind};
use crate::scalar::{mul_bits, sub_bits, ONE_BITS};
use vstd::prelude::*;

verus! {

/// Everything but the gradients is the same in `a` and `b`: the same
/// labels, scalars, operators and snapshots, over the same tree shape.
pub open spec fn same_skeleton(a: NodeModel, b: NodeModel) -> bool
    decreases a,
{
    &&& a.label == b.label
    &&& a.data == b.data
    &&& a.operator == b.operator
    &&& a.operands_snapshot == b.operands_snapshot
    &&& match (a.children, b.children) {
        (None, None) => true,
        (Some(x), Some(y)) => x.len() == y.len() && (forall|i: int|
            0 <= i < x.len() ==> same_skeleton(#[trigger] x[i], y[i])),
        _ => false,
    }
}

/// The backward walk only writes gradients: every node of the propagated
/// tree keeps its label, scalar, operator, snapshot and children count.
/// In particular a leaf never gains children.
pub proof fn lemma_propagated_keeps_skeleton(m: NodeModel, g: u64)
    ensures
        same_skeleton(m, propagated(m, g)),
    decreases m,
{
    let p = propagated(m, g);
    match m.children {
        None => {
        },
        Some(cs) => {
            let ps = p.children->Some_0;
            assert forall|i: int| 0 <= i < cs.len() implies same_skeleton(
                #[trigger] cs[i],
                ps[i],
            ) by {
                if cs.len() == 1 || cs.len() == 2 {
                    if m.operator == Some(OpKind::Pow) && i == 1 {
                        lemma_same_skeleton_reflexive(cs[1]);
                    } else {
                        lemma_propagated_keeps_skeleton(cs[i], child_grad(m, g, i));
                    }
                } else {
                    lemma_same_skeleton_reflexive(cs[i]);
                }
            }
        },
    }
}

/// `same_skeleton` is reflexive.
pub proof fn lemma_same_skeleton_reflexive(m: NodeModel)
    ensures
        same_skeleton(m, m),
    decreases m,
{
    match m.children {
        None => {
        },
        Some(cs) => {
            assert forall|i: int| 0 <= i < cs.len() implies same_skeleton(
                #[trigger] cs[i],
                cs[i],
            ) by {
                lemma_same_skeleton_reflexive(cs[i]);
            }
        },
    }
}

/// The backward walk keeps every node well-formed.
pub proof fn lemma_propagated_keeps_wf(m: NodeModel, g: u64)
    requires
        wf(m),
    ensures
        wf(propagated(m, g)),
    decreases m,
{
    let p = propagated(m, g);
    match m.operator {
        None => {
        },
        Some(op) => {
            let cs = kids_of(m);
            let ps = kids_of(p);
            assert forall|i: int| 0 <= i < ps.len() implies wf(#[trigger] ps[i]) by {
                if op == OpKind::Pow && i == 1 {
                } else {
                    lemma_propagated_keeps_wf(cs[i], child_grad(m, g, i));
                }
            }
        },
    }
}

/// Idempotent seeding: running the backward walk twice from the same root
/// with the same seed recomputes exactly the same gradients, because the
/// walk reads only scalars, operators and snapshots, none of which it
/// writes.
pub proof fn lemma_propagate_idempotent(m: NodeModel, g: u64)
    requires
        wf(m),
    ensures
        propagated(propagated(m, g), g) == propagated(m, g),
    decreases m,
{
    let p = propagated(m, g);
    let q = propagated(p, g);
    match m.operator {
        None => {
        },
        Some(op) => {
            let cs = kids_of(m);
            let ps = kids_of(p);
            let qs = kids_of(q);
            assert forall|i: int| 0 <= i < cs.len() implies qs[i] == ps[i] by {
                if op == OpKind::Pow {
                    // the second pass recomputes the base child's gradient
                    // from the base child's scalar, which the first pass kept
                    lemma_propagated_keeps_skeleton(cs[0], child_grad(m, g, 0));
                }
                assert(child_grad(p, g, i) == child_grad(m, g, i));
                if op == OpKind::Pow && i == 1 {
                } else {
                    lemma_propagate_idempotent(cs[i], child_grad(m, g, i));
                }
            }
            assert(qs =~= ps);
        },
    }
}

/// Gradient correctness for a product node: after the walk reaches
/// `Mul(a, b)` with gradient `g`, each operand's gradient is the other
/// operand's snapshotted scalar times `g`, and the node keeps `g`.
pub proof fn lemma_mul_gradients(m: NodeModel, g: u64)
    requires
        wf(m),
        m.operator == Some(OpKind::Mul),
    ensures
        propagated(m, g).grad == g,
        kids_of(propagated(m, g))[0].grad == mul_bits(snap_of(m)[1], g),
        kids_of(propagated(m, g))[1].grad == mul_bits(snap_of(m)[0], g),
{
    reveal_with_fuel(propagated, 2);
}

/// Gradient correctness for a sum node: after the walk reaches
/// `Add(a, b)` with gradient `g`, both operands receive `g` unchanged.
pub proof fn lemma_add_gradients(m: NodeModel, g: u64)
    requires
        wf(m),
        m.operator == Some(OpKind::Add),
    ensures
        propagated(m, g).grad == g,
        kids_of(propagated(m, g))[0].grad == g,
        kids_of(propagated(m, g))[1].grad == g,
{
    reveal_with_fuel(propagated, 2);
}

/// The exponential's derivative is itself: after the walk reaches
/// `Exp(a)`, the operand's gradient equals the node's own scalar
/// `e ^ a.data`, whatever gradient the node itself carries.
pub proof fn lemma_exp_gradient(m: NodeModel, g: u64)
    requires
        wf(m),
        m.operator == Some(OpKind::Exp),
    ensures
        kids_of(propagated(m, g))[0].grad == m.data,
{
    reveal_with_fuel(propagated, 2);
}

/// The hyperbolic tangent's derivative: after the walk reaches `Tanh(a)`
/// with gradient `g`, the operand's gradient is `(1 - data^2) * g`.
pub proof fn lemma_tanh_gradient(m: NodeModel, g: u64)
    requires
        wf(m),
        m.operator == Some(OpKind::Tanh),
    ensures
        kids_of(propagated(m, g))[0].grad == mul_bits(
            sub_bits(ONE_BITS, mul_bits(m.data, m.data)),
            g,
        ),
{
    reveal_with_fuel(propagated, 2);
}

/// A leaf has no children to descend into: the backward walk only seeds
/// its gradient.  Seeded as the root, a leaf therefore ends with gradient
/// `1.0`.
pub proof fn lemma_leaf_propagated(m: NodeModel, g: u64)
    requires
        wf(m),
        m.operator is None,
    ensures
        propagated(m, g) == (NodeModel { grad: g, ..m }),
        propagated(m, ONE_BITS).grad == ONE_BITS,
{
}

/// `Sub(a, b)`, built as `Add(a, Neg(b))`, really subtracts: its scalar is
/// the difference of the operand scalars, because IEEE-754 subtraction is
/// exactly the addition of the negated second operand, which is how
/// [`sub_bits`] is defined.
pub proof fn lemma_sub_subtracts(a: NodeModel, b: NodeModel)
    ensures
        add_model(a, neg_model(b)).data == sub_bits(a.data, b.data),
{
}

} // verus!
