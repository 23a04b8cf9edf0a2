//! The render adapter: an indented, human-readable dump of a graph.
//!
//! Each line shows the operator symbol (`=` for a leaf), the label, the
//! scalar and the gradient; children follow recursively, one indent level
//! deeper.  Rendering is pure: it reads the graph and produces text, and
//! neither the builders nor the propagator consume that text.

use crate::node::{height, lemma_height_child, lemma_models_of, models_of, NodeModel, OpKind,
    Value};
use crate::scalar::{decimal4_of, decimal_of, fshow, fshow4};
use vstd::prelude::*;
use vstd::string::{StrSliceExecFns, StringExecFns};

verus! {

/// The display symbol of an operation.
pub open spec fn op_symbol(op: OpKind) -> Seq<char> {
    match op {
        OpKind::Add => "+"@,
        OpKind::Mul => "*"@,
        OpKind::Pow => "^"@,
        OpKind::Exp => "e"@,
        OpKind::Tanh => "Tanh"@,
    }
}

/// The display symbol of an operation, `=` for a leaf.
pub open spec fn op_symbol_or_eq(op: Option<OpKind>) -> Seq<char> {
    match op {
        Some(op) => op_symbol(op),
        None => "="@,
    }
}

fn op_symbol_str(op: OpKind) -> (r: &'static str)
    ensures
        r@ == op_symbol(op),
{
    match op {
        OpKind::Add => "+",
        OpKind::Mul => "*",
        OpKind::Pow => "^",
        OpKind::Exp => "e",
        OpKind::Tanh => "Tanh",
    }
}

/// Four spaces per indent level.
pub open spec fn indent_model(level: nat) -> Seq<char>
    decreases level,
{
    if level == 0 {
        Seq::empty()
    } else {
        indent_model((level - 1) as nat) + "    "@
    }
}

/// The indentation of one tree level: four spaces per level.
pub fn indent(level: usize) -> (r: String)
    ensures
        r@ == indent_model(level as nat),
{
    let mut out = String::new();
    let mut i: usize = 0;
    while i < level
        invariant
            i <= level,
            out@ == indent_model(i as nat),
        decreases level - i,
    {
        out.append("    ");
        i = i + 1;
    }
    out
}

/// The decimal digits of `n`, most significant first.
pub open spec fn dec_seq(n: nat) -> Seq<char>
    decreases n,
{
    if n < 10 {
        seq![digit_char(n)]
    } else {
        dec_seq(n / 10) + seq![digit_char(n % 10)]
    }
}

/// The character of one decimal digit.
pub open spec fn digit_char(d: nat) -> char {
    if d == 0 {
        '0'
    } else if d == 1 {
        '1'
    } else if d == 2 {
        '2'
    } else if d == 3 {
        '3'
    } else if d == 4 {
        '4'
    } else if d == 5 {
        '5'
    } else if d == 6 {
        '6'
    } else if d == 7 {
        '7'
    } else if d == 8 {
        '8'
    } else {
        '9'
    }
}

fn digit_str(d: usize) -> (r: &'static str)
    requires
        d < 10,
    ensures
        r@ == seq![digit_char(d as nat)],
{
    proof {
        reveal_strlit("0");
        reveal_strlit("1");
        reveal_strlit("2");
        reveal_strlit("3");
        reveal_strlit("4");
        reveal_strlit("5");
        reveal_strlit("6");
        reveal_strlit("7");
        reveal_strlit("8");
        reveal_strlit("9");
    }
    let r = if d == 0 {
        "0"
    } else if d == 1 {
        "1"
    } else if d == 2 {
        "2"
    } else if d == 3 {
        "3"
    } else if d == 4 {
        "4"
    } else if d == 5 {
        "5"
    } else if d == 6 {
        "6"
    } else if d == 7 {
        "7"
    } else if d == 8 {
        "8"
    } else {
        "9"
    };
    proof {
        assert(r@ =~= seq![digit_char(d as nat)]);
    }
    r
}

/// Renders an index in decimal.
fn to_decimal(n: usize) -> (r: String)
    ensures
        r@ == dec_seq(n as nat),
    decreases n,
{
    if n < 10 {
        String::from_str(digit_str(n))
    } else {
        let mut out = to_decimal(n / 10);
        out.append(digit_str(n % 10));
        out
    }
}

/// One line of the chart: indentation, a branch mark, the operator symbol
/// (`=` for a leaf), then the label, the scalar and the gradient.
pub open spec fn chart_line(m: NodeModel, level: nat) -> Seq<char> {
    indent_model(level) + "\u{251c}\u{2500}"@ + op_symbol_or_eq(m.operator) + "(\x1b[93m"@
        + m.label + "\x1b[0m||Value: "@ + decimal_of(m.data) + ", grad: "@ + decimal_of(m.grad)
        + ")\n"@
}

/// The chart of a whole tree: the node's line, then each child's chart one
/// level deeper, in order.
pub open spec fn chart_model(m: NodeModel, level: nat) -> Seq<char>
    decreases m,
{
    chart_line(m, level) + (match m.children {
        None => Seq::empty(),
        Some(cs) => charts_of(cs, level + 1),
    })
}

/// The concatenated charts of a list of nodes.
pub open spec fn charts_of(cs: Seq<NodeModel>, level: nat) -> Seq<char>
    decreases cs,
{
    if cs.len() == 0 {
        Seq::empty()
    } else {
        charts_of(cs.subrange(0, cs.len() - 1), level) + chart_model(cs[cs.len() - 1], level)
    }
}

/// Renders a node and its subtree as an indented multi-line tree.
pub fn generate_chart(value: &Value, level: usize) -> (r: String)
    requires
        level + height(value@) <= usize::MAX,
    ensures
        r@ == chart_model(value@, level as nat),
    decreases height(value@),
{
    let mut out = indent(level);
    out.append("\u{251c}\u{2500}");
    match &value.operator {
        Some(op) => out.append(op_symbol_str(*op)),
        None => out.append("="),
    }
    out.append("(\x1b[93m");
    out.append(value.label.as_str());
    out.append("\x1b[0m||Value: ");
    let shown_data = fshow(value.data);
    out.append(shown_data.as_str());
    out.append(", grad: ");
    let shown_grad = fshow(value.grad);
    out.append(shown_grad.as_str());
    out.append(")\n");
    assert(out@ == chart_line(value@, level as nat));
    match &value.children {
        None => {
        },
        Some(cs) => {
            proof {
                lemma_models_of(cs@);
            }
            let ghost kids = models_of(cs@);
            let mut i: usize = 0;
            while i < cs.len()
                invariant
                    i <= cs.len(),
                    kids == models_of(cs@),
                    kids.len() == cs@.len(),
                    forall|j: int| 0 <= j < cs@.len() ==> kids[j] == #[trigger] cs@[j]@,
                    value@.children == Some(kids),
                    level + height(value@) <= usize::MAX,
                    height(value@) >= 1,
                    out@ == chart_line(value@, level as nat) + charts_of(
                        kids.subrange(0, i as int),
                        level as nat + 1,
                    ),
                decreases cs.len() - i,
            {
                proof {
                    lemma_height_child(value@, i as int);
                }
                let sub = generate_chart(&cs[i], level + 1);
                out.append(sub.as_str());
                proof {
                    assert(kids.subrange(0, i + 1).subrange(0, i as int) =~= kids.subrange(
                        0,
                        i as int,
                    ));
                    assert(kids.subrange(0, i + 1)[i as int] == kids[i as int]);
                }
                i = i + 1;
            }
            proof {
                assert(kids.subrange(0, cs@.len() as int) =~= kids);
            }
        },
    }
    out
}

/// One entry of the list chart: a heading with the entry's index, then the
/// node's chart one level deeper.
pub open spec fn chart_entry(m: NodeModel, i: nat, level: nat) -> Seq<char> {
    indent_model(level) + "Value "@ + dec_seq(i) + ":\n"@ + chart_model(m, level + 1)
}

/// The chart of a list of nodes: one indexed entry per node, in order.
pub open spec fn chart_vec_model(ms: Seq<NodeModel>, level: nat) -> Seq<char>
    decreases ms,
{
    if ms.len() == 0 {
        Seq::empty()
    } else {
        chart_vec_model(ms.subrange(0, ms.len() - 1), level) + chart_entry(
            ms[ms.len() - 1],
            (ms.len() - 1) as nat,
            level,
        )
    }
}

/// Renders a list of nodes: each under an indexed heading, its subtree one
/// level deeper.
pub fn generate_chart_for_vec(values: &[Value], level: usize) -> (r: String)
    requires
        level < usize::MAX,
        forall|i: int| 0 <= i < values@.len() ==> level + height(#[trigger] values@[i]@)
            < usize::MAX,
    ensures
        r@ == chart_vec_model(models_of(values@), level as nat),
{
    proof {
        lemma_models_of(values@);
    }
    let ghost ms = models_of(values@);
    let mut out = String::new();
    let mut i: usize = 0;
    while i < values.len()
        invariant
            i <= values@.len(),
            ms == models_of(values@),
            ms.len() == values@.len(),
            forall|j: int| 0 <= j < values@.len() ==> ms[j] == #[trigger] values@[j]@,
            level < usize::MAX,
            forall|j: int| 0 <= j < values@.len() ==> level + height(#[trigger] values@[j]@)
                < usize::MAX,
            out@ == chart_vec_model(ms.subrange(0, i as int), level as nat),
        decreases values@.len() - i,
    {
        let head = indent(level);
        out.append(head.as_str());
        out.append("Value ");
        let shown_index = to_decimal(i);
        out.append(shown_index.as_str());
        out.append(":\n");
        let sub = generate_chart(&values[i], level + 1);
        out.append(sub.as_str());
        proof {
            assert(ms.subrange(0, i + 1).subrange(0, i as int) =~= ms.subrange(0, i as int));
            assert(ms.subrange(0, i + 1)[i as int] == ms[i as int]);
        }
        i = i + 1;
    }
    proof {
        assert(ms.subrange(0, values@.len() as int) =~= ms);
    }
    out
}

/// The one-line description of a node and, recursively, of its children:
/// the scalar to four decimal places, the gradient, the children joined by
/// arrows, and the operator tag.
pub open spec fn display_model(m: NodeModel) -> Seq<char>
    decreases m,
{
    "(Value: "@ + decimal4_of(m.data) + ", grad: "@ + decimal_of(m.grad) + ", Prev: "@ + (match m
        .children {
        None => "None,"@,
        Some(cs) => displays_of(cs),
    }) + (match m.operator {
        Some(op) => " Op: "@ + op_symbol(op) + ")"@,
        None => " Op: None)"@,
    })
}

/// The descriptions of a list of nodes, each followed by a comma, with an
/// arrow between one node and the next.
pub open spec fn displays_of(cs: Seq<NodeModel>) -> Seq<char>
    decreases cs,
{
    if cs.len() == 0 {
        Seq::empty()
    } else if cs.len() == 1 {
        display_model(cs[0]) + ","@
    } else {
        displays_of(cs.subrange(0, cs.len() - 1)) + "->"@ + display_model(cs[cs.len() - 1]) + ","@
    }
}

impl Value {
    /// The one-line description of this node and its subtree, as
    /// [`display_model`] states it.
    pub fn to_string(&self) -> (r: String)
        ensures
            r@ == display_model(self@),
        decreases height(self@),
    {
        let mut out = String::from_str("(Value: ");
        let shown_data = fshow4(self.data);
        out.append(shown_data.as_str());
        out.append(", grad: ");
        let shown_grad = fshow(self.grad);
        out.append(shown_grad.as_str());
        out.append(", Prev: ");
        match &self.children {
            None => {
                out.append("None,");
            },
            Some(cs) => {
                proof {
                    lemma_models_of(cs@);
                }
                let ghost kids = models_of(cs@);
                let ghost pre = out@;
                let mut i: usize = 0;
                while i < cs.len()
                    invariant
                        i <= cs@.len(),
                        kids == models_of(cs@),
                        kids.len() == cs@.len(),
                        forall|j: int| 0 <= j < cs@.len() ==> kids[j] == #[trigger] cs@[j]@,
                        self@.children == Some(kids),
                        out@ == pre + displays_of(kids.subrange(0, i as int)) + (if 0 < i < kids.len() {
                            "->"@
                        } else {
                            Seq::<char>::empty()
                        }),
                    decreases cs@.len() - i,
                {
                    proof {
                        lemma_height_child(self@, i as int);
                    }
                    let sub = cs[i].to_string();
                    out.append(sub.as_str());
                    out.append(",");
                    if i + 1 < cs.len() {
                        out.append("->");
                    }
                    proof {
                        assert(kids.subrange(0, i + 1).subrange(0, i as int) =~= kids.subrange(
                            0,
                            i as int,
                        ));
                        assert(kids.subrange(0, i + 1)[i as int] == kids[i as int]);
                    }
                    i = i + 1;
                }
                proof {
                    assert(kids.subrange(0, cs@.len() as int) =~= kids);
                }
            },
        }
        match &self.operator {
            Some(op) => {
                out.append(" Op: ");
                out.append(op_symbol_str(*op));
                out.append(")");
            },
            None => {
                out.append(" Op: None)");
            },
        }
        out
    }
}

} // verus!
