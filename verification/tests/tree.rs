//! Tests for the host-side values, against a real parse tree.

use mlua_tree_sitter::tree::{TSNode, TreeWithSource, WithSource};

const CODE: &[u8] = b"\n          def double(x):\n              return x * 2\n        ";

fn parse_python() -> tree_sitter::Tree {
    let mut parser = tree_sitter::Parser::new();
    parser
        .set_language(&tree_sitter_python::LANGUAGE.into())
        .expect("the Python grammar should load");
    parser.parse(CODE, None).expect("the Python snippet should parse")
}

#[test]
fn with_source_pairs_tree_and_bytes() {
    let parsed = parse_python();
    let tws: TreeWithSource = parsed.with_source(CODE);
    assert_eq!(tws.src, CODE);
    assert_eq!(tws.tree.root_node().kind(), "module");
}

#[test]
fn node_wrapper_hands_back_the_node() {
    let parsed = parse_python();
    let tws: TreeWithSource = parsed.with_source(CODE);
    let root = tws.tree.root_node();
    let wrapped = TSNode(root);
    assert_eq!(wrapped.node().kind(), "module");
    assert_eq!(wrapped.node().id(), root.id());
    let inner = wrapped.into_inner();
    assert_eq!(inner.kind(), "module");
}
