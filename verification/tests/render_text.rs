use micrograd::{generate_chart, generate_chart_for_vec, indent, Value};

fn leaf(v: f64, label: &str) -> Value {
    Value::new(v.to_bits(), label.to_string())
}

#[test]
fn indent_is_four_spaces_per_level() {
    assert_eq!(indent(0), "");
    assert_eq!(indent(1), "    ");
    assert_eq!(indent(3), "            ");
}

#[test]
fn chart_of_a_leaf() {
    let l = leaf(1.5, "x");
    assert_eq!(
        generate_chart(&l, 0),
        "\u{251c}\u{2500}=(\x1b[93mx\x1b[0m||Value: 1.5, grad: 0)\n"
    );
}

#[test]
fn chart_of_a_product_tree() {
    let z = leaf(2.0, "x").mul(leaf(3.0, "y"));
    let expected = String::new()
        + "    \u{251c}\u{2500}*(\x1b[93mx*y\x1b[0m||Value: 6, grad: 0)\n"
        + "        \u{251c}\u{2500}=(\x1b[93mx\x1b[0m||Value: 2, grad: 0)\n"
        + "        \u{251c}\u{2500}=(\x1b[93my\x1b[0m||Value: 3, grad: 0)\n";
    assert_eq!(generate_chart(&z, 1), expected);
}

#[test]
fn chart_of_a_list_numbers_its_entries() {
    let values = vec![leaf(1.0, "a"), leaf(2.0, "b")];
    let expected = String::new()
        + "Value 0:\n"
        + "    \u{251c}\u{2500}=(\x1b[93ma\x1b[0m||Value: 1, grad: 0)\n"
        + "Value 1:\n"
        + "    \u{251c}\u{2500}=(\x1b[93mb\x1b[0m||Value: 2, grad: 0)\n";
    assert_eq!(generate_chart_for_vec(&values, 0), expected);
}

#[test]
fn display_string_of_a_leaf() {
    let l = leaf(1.5, "x");
    assert_eq!(l.to_string(), "(Value: 1.5000, grad: 0, Prev: None, Op: None)");
}

#[test]
fn display_string_of_a_product() {
    let z = leaf(2.0, "x").mul(leaf(3.0, "y"));
    assert_eq!(
        z.to_string(),
        "(Value: 6.0000, grad: 0, Prev: (Value: 2.0000, grad: 0, Prev: None, Op: None),\
         ->(Value: 3.0000, grad: 0, Prev: None, Op: None), Op: *)"
    );
}

#[test]
fn snapshot_accessor_returns_the_operand_scalars() {
    let z = leaf(2.0, "x").mul(leaf(3.0, "y"));
    let snap = Value::child(&z).unwrap();
    assert_eq!(snap, &vec![2.0_f64.to_bits(), 3.0_f64.to_bits()]);
    let l = leaf(1.0, "a");
    assert!(Value::child(&l).is_none());
}

#[test]
fn exp_label_and_snapshot_keep_the_result() {
    let e = leaf(0.5, "v").expv();
    assert_eq!(e.label, "Exp^v");
    let snap = e.operands_snapshot.as_ref().unwrap();
    assert_eq!(snap[0], 0.5_f64.to_bits());
    assert_eq!(snap[1], e.data);
    assert_eq!(e.children.as_ref().unwrap().len(), 1);

    let t = leaf(0.5, "v").tanh();
    assert_eq!(t.label, "Tan(Activation)");
    assert_eq!(
        t.operands_snapshot.as_ref().unwrap(),
        &vec![0.5_f64.to_bits()]
    );
}
