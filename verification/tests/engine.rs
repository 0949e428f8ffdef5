use gradtree::value::{Operands, Operation, Value};

fn bits(x: f64) -> u64 {
    x.to_bits()
}

fn num(x: u64) -> f64 {
    f64::from_bits(x)
}

fn fadd(a: u64, b: u64) -> u64 {
    (f64::from_bits(a) + f64::from_bits(b)).to_bits()
}

fn fmul(a: u64, b: u64) -> u64 {
    (f64::from_bits(a) * f64::from_bits(b)).to_bits()
}

fn ftanh(a: u64) -> u64 {
    f64::from_bits(a).tanh().to_bits()
}

fn foms(v: u64) -> u64 {
    (1.0 - f64::from_bits(v).powi(2)).to_bits()
}

fn two_children(v: &Value) -> (&Value, &Value) {
    match &v.operands {
        Operands::Add(l, r) => (l, r),
        Operands::Mul(l, r) => (l, r),
        _ => panic!("expected a node with two operands"),
    }
}

fn one_child(v: &Value) -> &Value {
    match &v.operands {
        Operands::Tanh(l) => l,
        _ => panic!("expected a node with one operand"),
    }
}

#[test]
fn new_makes_a_leaf() {
    let a = Value::new(bits(2.0));
    assert_eq!(num(a.value), 2.0);
    assert_eq!(num(a.grad), 0.0);
    assert_eq!(a.grad, 0);
    assert!(matches!(a.operands, Operands::Leaf));
    assert_eq!(a.label, "");
    assert_eq!(a.operation(), None);
}

#[test]
fn label_sets_the_label_only() {
    let a = Value::new(bits(2.0)).label("a".to_string());
    assert_eq!(a.label, "a");
    assert_eq!(num(a.value), 2.0);
    assert_eq!(num(a.grad), 0.0);
    assert!(matches!(a.operands, Operands::Leaf));
}

#[test]
fn operation_tags() {
    assert_eq!(Operation::Add.to_string(), "+");
    assert_eq!(Operation::Mul.to_string(), "*");
    assert_eq!(Operation::Tanh.to_string(), "tanh");
}

#[test]
fn add_forward_value_and_backward_gradients() {
    let a = Value::new(bits(2.0));
    let b = Value::new(bits(-3.0));
    let mut c = a.add(b, fadd);
    assert_eq!(num(c.value), -1.0);
    assert_eq!(c.operation(), Some(Operation::Add));

    let g = 4.5;
    c.grad = bits(g);
    let c = c.backward(fmul, foms);
    assert_eq!(num(c.grad), g);
    let (l, r) = two_children(&c);
    assert_eq!(num(l.grad), g);
    assert_eq!(num(r.grad), g);
}

#[test]
fn mul_forward_value_and_backward_gradients() {
    let a = Value::new(bits(2.0));
    let b = Value::new(bits(-3.0));
    let mut c = a.mul(b, fmul);
    assert_eq!(num(c.value), -6.0);
    assert_eq!(c.operation(), Some(Operation::Mul));

    let g = 4.5;
    c.grad = bits(g);
    let c = c.backward(fmul, foms);
    let (l, r) = two_children(&c);
    assert_eq!(num(l.grad), g * -3.0);
    assert_eq!(num(r.grad), g * 2.0);
}

#[test]
fn tanh_forward_value_and_backward_gradient() {
    let a = Value::new(bits(0.75));
    let mut c = a.tanh(ftanh);
    let t = 0.75f64.tanh();
    assert_eq!(num(c.value), t);
    assert_eq!(c.operation(), Some(Operation::Tanh));

    let g = 2.0;
    c.grad = bits(g);
    let c = c.backward(fmul, foms);
    let l = one_child(&c);
    assert_eq!(num(l.grad), (1.0 - t.powi(2)) * g);
}

#[test]
fn forward_composition_is_associative_on_exact_values() {
    let left = Value::new(bits(1.0))
        .add(Value::new(bits(2.0)), fadd)
        .add(Value::new(bits(3.0)), fadd);
    let right = Value::new(bits(1.0)).add(
        Value::new(bits(2.0)).add(Value::new(bits(3.0)), fadd),
        fadd,
    );
    assert_eq!(num(left.value), 6.0);
    assert_eq!(left.value, right.value);

    let left = Value::new(bits(2.0))
        .mul(Value::new(bits(3.0)), fmul)
        .mul(Value::new(bits(4.0)), fmul);
    let right = Value::new(bits(2.0)).mul(
        Value::new(bits(3.0)).mul(Value::new(bits(4.0)), fmul),
        fmul,
    );
    assert_eq!(num(left.value), 24.0);
    assert_eq!(left.value, right.value);
}

fn canonical_graph() -> Value {
    let a = Value::new(bits(2.0)).label("a".to_string());
    let b = Value::new(bits(-3.0)).label("b".to_string());
    let e = a.mul(b, fmul).label("e".to_string());
    let c = Value::new(bits(10.0)).label("c".to_string());
    let d = c.add(e, fadd).label("d".to_string());
    let f = Value::new(bits(-2.0)).label("f".to_string());
    let l = d.mul(f, fmul).label("L".to_string());
    l.tanh(ftanh).label("out".to_string())
}

#[test]
fn canonical_scenario_forward_and_backward() {
    let mut out = canonical_graph();

    // Forward values: e = a*b, d = c+e, L = d*f, out = tanh(L).
    let (l_node, _) = {
        let l = one_child(&out);
        (l.value, ())
    };
    assert_eq!(num(l_node), -8.0);
    let t = (-8.0f64).tanh();
    assert_eq!(num(out.value), t);

    out.grad = bits(1.0);
    let out = out.backward(fmul, foms);

    let l = one_child(&out);
    let (d, f) = two_children(l);
    let (c, e) = two_children(d);
    let (a, b) = two_children(e);

    assert_eq!(num(l.value), -8.0);
    assert_eq!(num(d.value), 4.0);
    assert_eq!(num(e.value), -6.0);

    // The chain rule, step by step, with the same operations the engine
    // was handed.
    let grad_l = (1.0 - t.powi(2)) * 1.0;
    assert_eq!(num(l.grad), grad_l);
    let grad_d = grad_l * -2.0;
    let grad_f = grad_l * 4.0;
    assert_eq!(num(d.grad), grad_d);
    assert_eq!(num(f.grad), grad_f);
    // A sum passes its gradient through unchanged.
    assert_eq!(c.grad, d.grad);
    assert_eq!(e.grad, d.grad);
    let grad_a = grad_d * -3.0;
    let grad_b = grad_d * 2.0;
    assert_eq!(num(a.grad), grad_a);
    assert_eq!(num(b.grad), grad_b);
}

#[test]
fn apply_grad_decreases_each_value_by_scaled_gradient() {
    let mut out = canonical_graph();
    out.grad = bits(1.0);
    let out = out.backward(fmul, foms);

    let l = one_child(&out);
    let (d, _f) = two_children(l);
    let (_c, e) = two_children(d);
    let (a, b) = two_children(e);
    let (a_val, a_grad) = (num(a.value), num(a.grad));
    let (b_val, b_grad) = (num(b.value), num(b.grad));

    let step = |v: u64, g: u64| (f64::from_bits(v) - f64::from_bits(g) * 0.1).to_bits();
    let out = out.apply_grad(step);

    let l = one_child(&out);
    let (d, _f) = two_children(l);
    let (_c, e) = two_children(d);
    let (a2, b2) = two_children(e);
    assert_eq!(num(a2.value), a_val - a_grad * 0.1);
    assert_eq!(num(b2.value), b_val - b_grad * 0.1);
    // Gradients are untouched by the update.
    assert_eq!(num(a2.grad), a_grad);
    assert_eq!(num(b2.grad), b_grad);
}

fn collect_grads(v: &Value, into: &mut Vec<u64>) {
    into.push(v.grad);
    match &v.operands {
        Operands::Leaf => {}
        Operands::Add(l, r) => {
            collect_grads(l, into);
            collect_grads(r, into);
        }
        Operands::Mul(l, r) => {
            collect_grads(l, into);
            collect_grads(r, into);
        }
        Operands::Tanh(l) => collect_grads(l, into),
    }
}

#[test]
fn backward_twice_without_reseeding_gives_same_gradients() {
    let mut out = canonical_graph();
    out.grad = bits(1.0);
    let once = out.backward(fmul, foms);
    let mut first = Vec::new();
    collect_grads(&once, &mut first);

    // The root's gradient is still the seed; no gradient accumulates in a
    // tree, so a second pass writes the same numbers again.
    let twice = once.backward(fmul, foms);
    let mut second = Vec::new();
    collect_grads(&twice, &mut second);
    assert_eq!(first, second);
}

#[test]
fn backward_on_a_single_leaf_terminates_and_touches_nothing_else() {
    let mut a = Value::new(bits(5.0)).label("a".to_string());
    a.grad = bits(1.0);
    let a = a.backward(fmul, foms);
    assert_eq!(num(a.value), 5.0);
    assert_eq!(num(a.grad), 1.0);
    assert_eq!(a.label, "a");
    assert!(matches!(a.operands, Operands::Leaf));
}
