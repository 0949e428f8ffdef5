use gradtree::render::graph_url;
use gradtree::value::{Operation, Value};

fn bits(x: f64) -> u64 {
    x.to_bits()
}

fn num(x: u64) -> f64 {
    f64::from_bits(x)
}

fn fadd(a: u64, b: u64) -> u64 {
    (f64::from_bits(a) + f64::from_bits(b)).to_bits()
}

fn fmul(a: u64, b: u64) -> u64 {
    (f64::from_bits(a) * f64::from_bits(b)).to_bits()
}

#[test]
fn export_of_a_leaf() {
    let a = Value::new(bits(7.0)).label("a".to_string());
    let (nodes, edges) = a.export();
    assert_eq!(nodes.len(), 1);
    assert_eq!(edges.len(), 0);
    assert_eq!(nodes[0].label, "a");
    assert_eq!(num(nodes[0].value), 7.0);
    assert_eq!(num(nodes[0].grad), 0.0);
    assert_eq!(nodes[0].operation, None);
}

#[test]
fn export_lists_nodes_in_preorder_with_parent_to_operand_edges() {
    let a = Value::new(bits(2.0)).label("a".to_string());
    let b = Value::new(bits(-3.0)).label("b".to_string());
    let e = a.mul(b, fmul).label("e".to_string());
    let c = Value::new(bits(10.0)).label("c".to_string());
    let d = c.add(e, fadd).label("d".to_string());

    let (nodes, edges) = d.export();
    let labels: Vec<&str> = nodes.iter().map(|n| n.label.as_str()).collect();
    assert_eq!(labels, ["d", "c", "e", "a", "b"]);
    assert_eq!(edges, [(0, 1), (0, 2), (2, 3), (2, 4)]);

    assert_eq!(nodes[0].operation, Some(Operation::Add));
    assert_eq!(nodes[1].operation, None);
    assert_eq!(nodes[2].operation, Some(Operation::Mul));
    assert_eq!(num(nodes[0].value), 4.0);
    assert_eq!(num(nodes[2].value), -6.0);
    assert_eq!(num(nodes[4].value), -3.0);
}

#[test]
fn graph_url_prefixes_and_percent_encodes() {
    let url = graph_url("digraph {\n}");
    assert_eq!(
        url,
        "https://dreampuf.github.io/GraphvizOnline/#digraph%20%7B%0A%7D"
    );
    assert_eq!(graph_url(""), "https://dreampuf.github.io/GraphvizOnline/#");
}
