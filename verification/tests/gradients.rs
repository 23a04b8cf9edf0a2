use micrograd::{propagate, OpKind, Value};

fn leaf(v: f64, label: &str) -> Value {
    Value::new(v.to_bits(), label.to_string())
}

#[test]
fn forward_data_matches_the_operation() {
    assert_eq!(leaf(2.0, "a").mul(leaf(3.0, "b")).data, 6.0_f64.to_bits());
    assert_eq!(leaf(2.0, "a").add(leaf(3.0, "b")).data, 5.0_f64.to_bits());
    assert_eq!(leaf(3.0, "a").pow(2.0_f64.to_bits()).data, 9.0_f64.to_bits());
    assert_eq!(leaf(1.0, "a").sub(leaf(0.25, "b")).data, 0.75_f64.to_bits());
    assert_eq!(leaf(1.0, "a").div(leaf(4.0, "b")).data, 0.25_f64.to_bits());
}

#[test]
fn product_gradients_are_the_other_operand() {
    let mut z = leaf(2.0, "x").mul(leaf(3.0, "y"));
    propagate(&mut z);
    assert_eq!(z.grad, 1.0_f64.to_bits());
    let children = z.children.as_ref().unwrap();
    assert_eq!(children[0].grad, 3.0_f64.to_bits());
    assert_eq!(children[1].grad, 2.0_f64.to_bits());
}

#[test]
fn chain_rule_through_add_mul_tanh() {
    let x1 = leaf(4.0, "x1");
    let w1 = leaf(-3.0, "w1");
    let x2 = leaf(0.0, "x2");
    let w2 = leaf(5.0, "w2");
    let b = leaf(6.88137356872, "b");
    let n = x1.mul(w1).add(x2.mul(w2)).add(b);
    assert_eq!(
        n.data,
        (-3.0 * 4.0 + 5.0 * 0.0 + 6.88137356872_f64).to_bits()
    );
    let mut o = n.tanh();
    propagate(&mut o);

    let t = f64::from_bits(o.data);
    // o seeds 1.0; n receives (1 - t^2) * 1; the sum hands it through
    // unchanged; each product hands the other operand's value times it.
    let n_grad = (1.0 - t * t) * 1.0;
    let n_node = &o.children.as_ref().unwrap()[0];
    assert_eq!(n_node.grad, n_grad.to_bits());
    let left_sum = &n_node.children.as_ref().unwrap()[0]; // x1*w1 + x2*w2
    let b_node = &n_node.children.as_ref().unwrap()[1];
    assert_eq!(left_sum.grad, n_grad.to_bits());
    assert_eq!(b_node.grad, n_grad.to_bits());
    let prod1 = &left_sum.children.as_ref().unwrap()[0]; // x1*w1
    assert_eq!(prod1.grad, n_grad.to_bits());
    let x1_node = &prod1.children.as_ref().unwrap()[0];
    let w1_node = &prod1.children.as_ref().unwrap()[1];
    assert_eq!(x1_node.grad, (-3.0 * n_grad).to_bits());
    assert_eq!(w1_node.grad, (4.0 * n_grad).to_bits());
}

#[test]
fn tanh_derivative_is_one_minus_data_squared() {
    let v = leaf(0.5, "v");
    let mut t = v.tanh();
    propagate(&mut t);
    let td = f64::from_bits(t.data);
    let v_node = &t.children.as_ref().unwrap()[0];
    assert_eq!(v_node.grad, ((1.0 - td * td) * 1.0).to_bits());
}

#[test]
fn exp_derivative_is_the_node_itself() {
    let v = leaf(0.5, "v");
    let mut e = v.expv();
    propagate(&mut e);
    let v_node = &e.children.as_ref().unwrap()[0];
    assert_eq!(v_node.grad, e.data);
}

#[test]
fn pow_gradient_and_constant_exponent() {
    let x = leaf(3.0, "x");
    let mut p = x.pow(2.0_f64.to_bits());
    assert_eq!(p.label, "x^2");
    propagate(&mut p);
    let children = p.children.as_ref().unwrap();
    // d(x^2)/dx = 2 * x^(2-1) * 1 = 6; the exponent child stays untouched.
    assert_eq!(children[0].grad, 6.0_f64.to_bits());
    assert_eq!(children[1].grad, 0.0_f64.to_bits());
    assert_eq!(children[1].label, "2");
    assert_eq!(children[1].operator, None);
}

#[test]
fn propagate_twice_recomputes_identical_gradients() {
    let mut z = leaf(2.0, "x").mul(leaf(3.0, "y")).tanh();
    propagate(&mut z);
    let first_root = z.grad;
    let first_mul = z.children.as_ref().unwrap()[0].grad;
    let first_x = z.children.as_ref().unwrap()[0].children.as_ref().unwrap()[0].grad;
    propagate(&mut z);
    assert_eq!(z.grad, first_root);
    assert_eq!(z.children.as_ref().unwrap()[0].grad, first_mul);
    assert_eq!(
        z.children.as_ref().unwrap()[0].children.as_ref().unwrap()[0].grad,
        first_x
    );
}

#[test]
fn leaf_stays_a_leaf_and_seeds_to_one() {
    let mut l = leaf(7.25, "l");
    propagate(&mut l);
    assert_eq!(l.grad, 1.0_f64.to_bits());
    assert!(l.operator.is_none());
    assert!(l.children.is_none());
    assert!(l.operands_snapshot.is_none());
}

#[test]
fn scalar_operands_synthesize_constant_leaves() {
    let s = leaf(2.0, "x").add_scalar(0.5_f64.to_bits());
    assert_eq!(s.label, "x+const");
    assert_eq!(s.data, 2.5_f64.to_bits());
    let children = s.children.as_ref().unwrap();
    assert_eq!(children[1].label, "const");
    assert_eq!(children[1].data, 0.5_f64.to_bits());
    assert_eq!(children[1].operator, None);

    let m = leaf(2.0, "x").mul_scalar(0.5_f64.to_bits());
    assert_eq!(m.label, "x*const");
    assert_eq!(m.data, 1.0_f64.to_bits());
}

#[test]
fn neg_flips_data_and_keeps_everything_else() {
    let z = leaf(2.0, "x").mul(leaf(3.0, "y"));
    let n = z.neg();
    assert_eq!(n.data, (-6.0_f64).to_bits());
    assert_eq!(n.label, "x*y");
    assert_eq!(n.operator, Some(OpKind::Mul));
    assert_eq!(n.children.as_ref().unwrap().len(), 2);
}

#[test]
fn sub_and_div_label_like_their_expansions() {
    let s = leaf(2.0, "a").sub(leaf(3.0, "b"));
    assert_eq!(s.label, "a+b");
    assert_eq!(s.operator, Some(OpKind::Add));
    let d = leaf(2.0, "a").div(leaf(3.0, "b"));
    assert_eq!(d.label, "a*b^-1");
    assert_eq!(d.operator, Some(OpKind::Mul));
}

#[test]
fn float_edge_cases_propagate_as_ordinary_scalars() {
    let d = leaf(1.0, "a").div(leaf(0.0, "b"));
    assert_eq!(f64::from_bits(d.data), f64::INFINITY);
    let p = leaf(-1.0, "a").pow(0.5_f64.to_bits());
    assert!(f64::from_bits(p.data).is_nan());
    // every NaN an operation produces is normalized to the one quiet NaN
    assert_eq!(p.data, micrograd::scalar::QNAN_BITS);
    let q = leaf(0.0, "a").div(leaf(0.0, "b"));
    assert_eq!(q.data, micrograd::scalar::QNAN_BITS);
}

#[test]
fn scalar_constants_match_their_values() {
    assert_eq!(micrograd::scalar::ZERO_BITS, 0.0_f64.to_bits());
    assert_eq!(micrograd::scalar::ONE_BITS, 1.0_f64.to_bits());
    assert_eq!(micrograd::scalar::TWO_BITS, 2.0_f64.to_bits());
    assert_eq!(micrograd::scalar::NEG_ONE_BITS, (-1.0_f64).to_bits());
    assert_eq!(micrograd::scalar::EULER_BITS, std::f64::consts::E.to_bits());
}

#[test]
fn clone_is_a_deep_copy() {
    let z = leaf(2.0, "x").mul(leaf(3.0, "y"));
    let c = z.clone();
    assert_eq!(c.label, z.label);
    assert_eq!(c.data, z.data);
    assert_eq!(c.grad, z.grad);
    assert_eq!(c.operator, z.operator);
    assert_eq!(
        c.operands_snapshot.as_ref().unwrap(),
        z.operands_snapshot.as_ref().unwrap()
    );
    assert_eq!(
        c.children.as_ref().unwrap()[0].label,
        z.children.as_ref().unwrap()[0].label
    );
    assert_eq!(
        c.children.as_ref().unwrap()[1].data,
        z.children.as_ref().unwrap()[1].data
    );
}
