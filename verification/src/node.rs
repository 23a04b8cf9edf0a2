//! The node of the computation graph and the operation builders.
//!
//! A [`Value`] holds a scalar (a binary64 bit pattern), an accumulated
//! gradient, and the provenance of the scalar: the operation that produced
//! it, a snapshot of the raw operand scalars, and the operand nodes
//! themselves.  Builders consume their operand nodes by value; a node is
//! never mutated after construction except for its gradient during the
//! backward walk.

use crate::scalar::{add_bits, decimal_of, div_bits, fadd, fdiv, fmul, fneg, fpow, fshow,
    mul_bits, neg_bits, pow_bits, EULER_BITS, NEG_ONE_BITS, ONE_BITS, TWO_BITS, ZERO_BITS};
use vstd::prelude::*;
use vstd::string::StringExecFns;

verus! {

/// The operation that produced a node.
#[derive(Clone, Copy, Debug, PartialEq, Eq, Structural)]
pub enum OpKind {
    Add,
    Mul,
    Pow,
    Exp,
    Tanh,
}

/// How many operand nodes an operation consumes.
///
/// `Pow` counts two: the exponent is recorded as a second child purely for
/// display, and is excluded from gradient computation.
pub open spec fn child_count(op: OpKind) -> nat {
    match op {
        OpKind::Add => 2,
        OpKind::Mul => 2,
        OpKind::Pow => 2,
        OpKind::Exp => 1,
        OpKind::Tanh => 1,
    }
}

/// How many raw operand scalars an operation snapshots.
pub open spec fn snapshot_count(op: OpKind) -> nat {
    match op {
        OpKind::Add => 2,
        OpKind::Mul => 2,
        OpKind::Pow => 2,
        OpKind::Exp => 2,
        OpKind::Tanh => 1,
    }
}

/// A node of the computation graph.
///
/// `data` and `grad` are binary64 bit patterns (see [`crate::scalar`]).
/// A leaf has no operator, no children and no snapshot; an operation node
/// owns the operand nodes it consumed.
#[derive(Debug)]
pub struct Value {
    /// Human-readable provenance tag; never used for computation.
    pub label: String,
    /// The node's scalar, fixed at construction.
    pub data: u64,
    /// Gradient of the propagation root with respect to this node.
    pub grad: u64,
    /// The operation that produced this node, or `None` for a leaf.
    pub operator: Option<OpKind>,
    /// The raw operand scalars of that operation.
    pub operands_snapshot: Option<Vec<u64>>,
    /// The operand nodes consumed to build this node.
    pub children: Option<Vec<Value>>,
}

/// The mathematical image of a [`Value`]: the same tree over `Seq`s.
pub ghost struct NodeModel {
    pub label: Seq<char>,
    pub data: u64,
    pub grad: u64,
    pub operator: Option<OpKind>,
    pub operands_snapshot: Option<Seq<u64>>,
    pub children: Option<Seq<NodeModel>>,
}

/// The models of a list of nodes, in order.
pub open spec fn models_of(s: Seq<Value>) -> Seq<NodeModel>
    decreases s,
{
    if s.len() == 0 {
        Seq::empty()
    } else {
        models_of(s.subrange(0, s.len() - 1)).push(s[s.len() - 1].view())
    }
}

impl View for Value {
    type V = NodeModel;

    open spec fn view(&self) -> NodeModel
        decreases self,
    {
        NodeModel {
            label: self.label@,
            data: self.data,
            grad: self.grad,
            operator: self.operator,
            operands_snapshot: match self.operands_snapshot {
                None => None,
                Some(s) => Some(s@),
            },
            children: match self.children {
                None => None,
                Some(cs) => Some(models_of(cs@)),
            },
        }
    }
}

/// `models_of` is the pointwise model of the list.
pub proof fn lemma_models_of(s: Seq<Value>)
    ensures
        models_of(s).len() == s.len(),
        forall|i: int| 0 <= i < s.len() ==> models_of(s)[i] == #[trigger] s[i]@,
    decreases s,
{
    if s.len() > 0 {
        let prefix = s.subrange(0, s.len() - 1);
        lemma_models_of(prefix);
        assert(models_of(s) == models_of(prefix).push(s[s.len() - 1]@));
        assert forall|i: int| 0 <= i < s.len() implies models_of(s)[i] == #[trigger] s[i]@ by {
            if i < s.len() - 1 {
                assert(prefix[i] == s[i]);
                assert(models_of(s)[i] == models_of(prefix)[i]);
            }
        }
    }
}

/// Well-formedness of a node, as the graph invariants state it: a leaf has
/// no children and no snapshot; an operation node has exactly the children
/// and snapshot entries its operation calls for; and every child is itself
/// well-formed.
pub open spec fn wf(m: NodeModel) -> bool
    decreases m,
{
    match m.operator {
        None => m.children is None && m.operands_snapshot is None,
        Some(op) => {
            &&& m.children matches Some(cs) && cs.len() == child_count(op) && (forall|i: int|
                0 <= i < cs.len() ==> wf(#[trigger] cs[i]))
            &&& m.operands_snapshot matches Some(snap) && snap.len() == snapshot_count(op)
        },
    }
}

/// The height of a node's tree: a leaf has height zero.
pub open spec fn height(m: NodeModel) -> nat
    decreases m,
{
    match m.children {
        None => 0,
        Some(cs) => 1 + heights_max(cs),
    }
}

/// The largest height among a list of nodes; zero for an empty list.
pub open spec fn heights_max(cs: Seq<NodeModel>) -> nat
    decreases cs,
{
    if cs.len() == 0 {
        0
    } else {
        let rest = heights_max(cs.subrange(0, cs.len() - 1));
        let last = height(cs[cs.len() - 1]);
        if last > rest {
            last
        } else {
            rest
        }
    }
}

/// Every node in a list is at most the list's largest height.
pub proof fn lemma_heights_max(cs: Seq<NodeModel>, i: int)
    requires
        0 <= i < cs.len(),
    ensures
        height(cs[i]) <= heights_max(cs),
    decreases cs,
{
    if i < cs.len() - 1 {
        let prefix = cs.subrange(0, cs.len() - 1);
        lemma_heights_max(prefix, i);
        assert(prefix[i] == cs[i]);
    }
}

/// A child's tree is strictly lower than its parent's.
pub proof fn lemma_height_child(m: NodeModel, i: int)
    requires
        m.children is Some,
        0 <= i < m.children->Some_0.len(),
    ensures
        height(m.children->Some_0[i]) < height(m),
{
    lemma_heights_max(m.children->Some_0, i);
}

/// The scalar of `Tanh(a)`, computed as `(e^(2a) - 1) / (e^(2a) + 1)`,
/// with the exponential taken as `e` raised to `2a` by the same power
/// primitive the `Exp` builder uses.
pub open spec fn tanh_data(a: u64) -> u64 {
    let e = pow_bits(EULER_BITS, mul_bits(a, TWO_BITS));
    div_bits(add_bits(e, NEG_ONE_BITS), add_bits(e, ONE_BITS))
}

/// The model of a fresh leaf.
pub open spec fn leaf_model(data: u64, label: Seq<char>) -> NodeModel {
    NodeModel {
        label: label,
        data: data,
        grad: ZERO_BITS,
        operator: None,
        operands_snapshot: None,
        children: None,
    }
}

/// The model of a fresh unary operation node over operand `a`.
pub open spec fn unary_model(a: NodeModel, op: OpKind, data: u64, snapshot: Seq<u64>, label: Seq<
    char,
>) -> NodeModel {
    NodeModel {
        label: label,
        data: data,
        grad: ZERO_BITS,
        operator: Some(op),
        operands_snapshot: Some(snapshot),
        children: Some(seq![a]),
    }
}

/// The model of `Add(a, b)`: scalar `a + b`, children `[a, b]`.
pub open spec fn add_model(a: NodeModel, b: NodeModel) -> NodeModel {
    binary_model(a, b, OpKind::Add, add_bits(a.data, b.data), join_labels(a.label, "+"@, b.label))
}

/// The model of `Mul(a, b)`: scalar `a * b`, children `[a, b]`.
pub open spec fn mul_model(a: NodeModel, b: NodeModel) -> NodeModel {
    binary_model(a, b, OpKind::Mul, mul_bits(a.data, b.data), join_labels(a.label, "*"@, b.label))
}

/// The model of `Pow(a, e)`: scalar `a ^ e`; the constant exponent is
/// recorded as a synthesized second child labeled with its decimal form.
pub open spec fn pow_model(a: NodeModel, e: u64) -> NodeModel {
    binary_model(
        a,
        leaf_model(e, decimal_of(e)),
        OpKind::Pow,
        pow_bits(a.data, e),
        join_labels(a.label, "^"@, decimal_of(e)),
    )
}

/// The model of `Exp(a)`: scalar `e ^ a`, one child, and a snapshot that
/// also retains the resulting scalar.
pub open spec fn exp_model(a: NodeModel) -> NodeModel {
    unary_model(
        a,
        OpKind::Exp,
        pow_bits(EULER_BITS, a.data),
        seq![a.data, pow_bits(EULER_BITS, a.data)],
        "Exp^"@ + a.label,
    )
}

/// The model of `Tanh(a)`: one child, the operand scalar as the snapshot.
pub open spec fn tanh_model(a: NodeModel) -> NodeModel {
    unary_model(a, OpKind::Tanh, tanh_data(a.data), seq![a.data], "Tan(Activation)"@)
}

/// The model of `Neg(a)`: the scalar's sign flips; label, gradient,
/// operator, snapshot and children all stay as they were, so no new node
/// is introduced.
pub open spec fn neg_model(a: NodeModel) -> NodeModel {
    NodeModel { data: neg_bits(a.data), ..a }
}

impl Value {
    /// Constructs a leaf: no operator, no children, gradient zero.
    pub fn new(data: u64, label: String) -> (r: Value)
        ensures
            r@ == leaf_model(data, label@),
            wf(r@),
    {
        Value {
            label,
            data,
            grad: ZERO_BITS,
            operator: None,
            operands_snapshot: None,
            children: None,
        }
    }

    /// The raw operand scalars this node's operation snapshotted, if any.
    pub fn child(value: &Value) -> (r: Option<&Vec<u64>>)
        ensures
            match r {
                Some(s) => value@.operands_snapshot == Some(s@),
                None => value@.operands_snapshot is None,
            },
    {
        match &value.operands_snapshot {
            Some(backward) => Some(backward),
            None => None,
        }
    }

    /// `Add(a, b)`: scalar `a + b`, children `[a, b]`, snapshot
    /// `[a.data, b.data]`, label `a+b`.
    pub fn add(self, other: Value) -> (r: Value)
        ensures
            r@ == add_model(self@, other@),
            wf(self@) && wf(other@) ==> wf(r@),
    {
        let data = fadd(self.data, other.data);
        let mut label = self.label.clone();
        label.append("+");
        label.append(other.label.as_str());
        let snapshot = vec![self.data, other.data];
        let children = vec![self, other];
        proof {
            lemma_models_of(children@);
            assert(models_of(children@) =~= seq![self@, other@]);
            assert(snapshot@ =~= seq![self@.data, other@.data]);
        }
        Value {
            label,
            data,
            grad: ZERO_BITS,
            operator: Some(OpKind::Add),
            operands_snapshot: Some(snapshot),
            children: Some(children),
        }
    }

    /// `Add(a, c)` for a bare scalar `c`: a leaf labeled as a constant is
    /// synthesized for `c`, so the graph stays uniformly node-typed.
    pub fn add_scalar(self, c: u64) -> (r: Value)
        ensures
            r@ == add_model(self@, leaf_model(c, "const"@)),
            wf(self@) ==> wf(r@),
    {
        let other = Value::new(c, String::from_str("const"));
        self.add(other)
    }

    /// `Mul(a, b)`: scalar `a * b`, children `[a, b]`, snapshot
    /// `[a.data, b.data]`, label `a*b`.
    pub fn mul(self, other: Value) -> (r: Value)
        ensures
            r@ == mul_model(self@, other@),
            wf(self@) && wf(other@) ==> wf(r@),
    {
        let data = fmul(self.data, other.data);
        let mut label = self.label.clone();
        label.append("*");
        label.append(other.label.as_str());
        let snapshot = vec![self.data, other.data];
        let children = vec![self, other];
        proof {
            lemma_models_of(children@);
            assert(models_of(children@) =~= seq![self@, other@]);
            assert(snapshot@ =~= seq![self@.data, other@.data]);
        }
        Value {
            label,
            data,
            grad: ZERO_BITS,
            operator: Some(OpKind::Mul),
            operands_snapshot: Some(snapshot),
            children: Some(children),
        }
    }

    /// `Mul(a, c)` for a bare scalar `c`: a leaf labeled as a constant is
    /// synthesized for `c`, so the graph stays uniformly node-typed.
    pub fn mul_scalar(self, c: u64) -> (r: Value)
        ensures
            r@ == mul_model(self@, leaf_model(c, "const"@)),
            wf(self@) ==> wf(r@),
    {
        let other = Value::new(c, String::from_str("const"));
        self.mul(other)
    }

    /// `Pow(a, e)` for a constant exponent `e`: scalar `a ^ e`.  The
    /// exponent is recorded as a second child purely for display; the
    /// backward walk treats it as a constant.
    pub fn pow(self, exponent: u64) -> (r: Value)
        ensures
            r@ == pow_model(self@, exponent),
            wf(self@) ==> wf(r@),
    {
        let shown = fshow(exponent);
        let exp_leaf = Value::new(exponent, shown.clone());
        let data = fpow(self.data, exponent);
        let mut label = self.label.clone();
        label.append("^");
        label.append(shown.as_str());
        let snapshot = vec![self.data, exponent];
        let children = vec![self, exp_leaf];
        proof {
            lemma_models_of(children@);
            assert(models_of(children@) =~= seq![self@, exp_leaf@]);
            assert(snapshot@ =~= seq![self@.data, exponent]);
        }
        Value {
            label,
            data,
            grad: ZERO_BITS,
            operator: Some(OpKind::Pow),
            operands_snapshot: Some(snapshot),
            children: Some(children),
        }
    }

    /// `Exp(a)`: scalar `e ^ a`, one child; the snapshot retains both the
    /// operand scalar and the resulting scalar.
    pub fn expv(self) -> (r: Value)
        ensures
            r@ == exp_model(self@),
            wf(self@) ==> wf(r@),
    {
        let data = fpow(crate::scalar::EULER_BITS, self.data);
        let mut label = String::from_str("Exp^");
        label.append(self.label.as_str());
        let snapshot = vec![self.data, data];
        let children = vec![self];
        proof {
            lemma_models_of(children@);
            assert(models_of(children@) =~= seq![self@]);
            assert(snapshot@ =~= seq![self@.data, pow_bits(EULER_BITS, self@.data)]);
        }
        Value {
            label,
            data,
            grad: ZERO_BITS,
            operator: Some(OpKind::Exp),
            operands_snapshot: Some(snapshot),
            children: Some(children),
        }
    }

    /// `Tanh(a)`: scalar `(e^(2a) - 1) / (e^(2a) + 1)`, one child, the
    /// operand scalar as the snapshot.
    pub fn tanh(self) -> (r: Value)
        ensures
            r@ == tanh_model(self@),
            wf(self@) ==> wf(r@),
    {
        let e = fpow(EULER_BITS, fmul(self.data, TWO_BITS));
        let data = fdiv(fadd(e, NEG_ONE_BITS), fadd(e, ONE_BITS));
        let label = String::from_str("Tan(Activation)");
        let snapshot = vec![self.data];
        let children = vec![self];
        proof {
            lemma_models_of(children@);
            assert(models_of(children@) =~= seq![self@]);
            assert(snapshot@ =~= seq![self@.data]);
        }
        Value {
            label,
            data,
            grad: ZERO_BITS,
            operator: Some(OpKind::Tanh),
            operands_snapshot: Some(snapshot),
            children: Some(children),
        }
    }

    /// `Neg(a)`: flips the sign of the scalar and keeps everything else,
    /// the operator tag and the children included, so no new node is
    /// introduced.
    pub fn neg(self) -> (r: Value)
        ensures
            r@ == neg_model(self@),
            wf(self@) ==> wf(r@),
    {
        let data = fneg(self.data);
        Value { data, ..self }
    }

    /// `Sub(a, b)`, defined as `Add(a, Neg(b))`.
    pub fn sub(self, other: Value) -> (r: Value)
        ensures
            r@ == add_model(self@, neg_model(other@)),
            wf(self@) && wf(other@) ==> wf(r@),
    {
        let negated = other.neg();
        self.add(negated)
    }

    /// `Div(a, b)`, defined as `Mul(a, Pow(b, -1))`.
    pub fn div(self, rhs: Value) -> (r: Value)
        ensures
            r@ == mul_model(self@, pow_model(rhs@, NEG_ONE_BITS)),
            wf(self@) && wf(rhs@) ==> wf(r@),
    {
        let inverted = rhs.pow(NEG_ONE_BITS);
        self.mul(inverted)
    }
}

/// A deep copy of a node: the copy's model is the original's.
fn clone_node(v: &Value) -> (r: Value)
    ensures
        r@ == v@,
    decreases height(v@),
{
    let label = v.label.clone();
    let operands_snapshot = match &v.operands_snapshot {
        Some(s) => {
            let copy = copy_scalars(s);
            Some(copy)
        },
        None => None,
    };
    let children = match &v.children {
        Some(cs) => {
            proof {
                lemma_models_of(cs@);
            }
            let ghost kids = models_of(cs@);
            let mut out: Vec<Value> = Vec::new();
            let mut i: usize = 0;
            while i < cs.len()
                invariant
                    i <= cs@.len(),
                    kids == models_of(cs@),
                    kids.len() == cs@.len(),
                    forall|j: int| 0 <= j < cs@.len() ==> kids[j] == #[trigger] cs@[j]@,
                    v@.children == Some(kids),
                    out@.len() == i,
                    forall|j: int| 0 <= j < i ==> #[trigger] out@[j]@ == kids[j],
                decreases cs@.len() - i,
            {
                proof {
                    lemma_height_child(v@, i as int);
                }
                let copy = clone_node(&cs[i]);
                out.push(copy);
                i = i + 1;
            }
            proof {
                lemma_models_of(out@);
                assert forall|j: int| 0 <= j < out@.len() implies models_of(out@)[j] == kids[j] by {
                    assert(out@[j]@ == kids[j]);
                }
                assert(models_of(out@) =~= kids);
            }
            Some(out)
        },
        None => None,
    };
    Value { label, data: v.data, grad: v.grad, operator: v.operator, operands_snapshot, children }
}

/// Copies a list of scalars.
fn copy_scalars(s: &Vec<u64>) -> (r: Vec<u64>)
    ensures
        r@ == s@,
{
    let mut out: Vec<u64> = Vec::new();
    let mut i: usize = 0;
    while i < s.len()
        invariant
            i <= s@.len(),
            out@ == s@.subrange(0, i as int),
        decreases s@.len() - i,
    {
        out.push(s[i]);
        proof {
            assert(out@ =~= s@.subrange(0, i + 1));
        }
        i = i + 1;
    }
    proof {
        assert(s@.subrange(0, s@.len() as int) =~= s@);
    }
    out
}

impl Clone for Value {
    /// A deep copy: the clone's model is the original's.
    fn clone(&self) -> (r: Self)
        ensures
            r@ == self@,
    {
        clone_node(self)
    }
}

/// The label of a binary operation node: the operand labels joined by the
/// operation's symbol.
pub open spec fn join_labels(a: Seq<char>, symbol: Seq<char>, b: Seq<char>) -> Seq<char> {
    a + symbol + b
}

/// The model of a freshly built binary operation node over operands `a`
/// and `b`: gradient zero, both operands as children, their scalars as the
/// snapshot.
pub open spec fn binary_model(a: NodeModel, b: NodeModel, op: OpKind, data: u64, label: Seq<
    char,
>) -> NodeModel {
    NodeModel {
        label: label,
        data: data,
        grad: ZERO_BITS,
        operator: Some(op),
        operands_snapshot: Some(seq![a.data, b.data]),
        children: Some(seq![a, b]),
    }
}

} // verus!
