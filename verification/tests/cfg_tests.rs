use webml::hir::HTy;
use webml::mir::{Function, Op, EBB};
use webml::prim::Symbol;

fn sym(s: &str) -> Symbol {
    Symbol::new(s.to_string())
}

fn ret_block(name: &str, value: &str) -> EBB {
    EBB { name: sym(name), params: vec![], body: vec![Op::Ret { value: sym(value) }] }
}

fn jump_block(name: &str, target: &str) -> EBB {
    EBB {
        name: sym(name),
        params: vec![],
        body: vec![Op::Jump { target: sym(target), args: vec![] }],
    }
}

fn branch_block(name: &str, then: &str, els: &str) -> EBB {
    EBB {
        name: sym(name),
        params: vec![],
        body: vec![Op::Branch {
            cond: sym("c"),
            then: sym(then),
            then_args: vec![],
            else_: sym(els),
            else_args: vec![],
        }],
    }
}

fn func(body: Vec<EBB>) -> Function {
    Function { name: sym("f"), params: vec![], ret_ty: HTy::Int, body }
}

fn edge_weights(g: &petgraph::graph::Graph<usize, ()>) -> Vec<(usize, usize)> {
    let mut out = vec![];
    for e in g.edge_indices() {
        let (a, b) = g.edge_endpoints(e).unwrap();
        out.push((g[a], g[b]));
    }
    out.sort();
    out
}

#[test]
fn next_ebbs_of_each_terminator() {
    let b = branch_block("a", "t", "e");
    assert_eq!(b.next_ebbs(), vec![sym("t"), sym("e")]);
    let j = jump_block("a", "z");
    assert_eq!(j.next_ebbs(), vec![sym("z")]);
    let r = ret_block("a", "v");
    assert_eq!(r.next_ebbs(), Vec::<Symbol>::new());
}

#[test]
fn find_ebb_first_match() {
    let f = func(vec![ret_block("a", "v"), ret_block("b", "v"), ret_block("a", "v")]);
    assert_eq!(f.find_ebb(&sym("a")), Some(0));
    assert_eq!(f.find_ebb(&sym("b")), Some(1));
    assert_eq!(f.find_ebb(&sym("zz")), None);
}

#[test]
fn cfg_linear_chain() {
    let f = func(vec![jump_block("a", "b"), ret_block("b", "v")]);
    let g = f.cfg();
    assert_eq!(g.node_count(), 2);
    assert_eq!(g.edge_count(), 1);
    let mut ws: Vec<usize> = g.node_weights().copied().collect();
    ws.sort();
    assert_eq!(ws, vec![0, 1]);
    assert_eq!(edge_weights(&g), vec![(0, 1)]);
}

#[test]
fn cfg_diamond() {
    let f = func(vec![
        branch_block("a", "l", "r"),
        jump_block("l", "z"),
        jump_block("r", "z"),
        ret_block("z", "v"),
    ]);
    let g = f.cfg();
    assert_eq!(g.node_count(), 4);
    assert_eq!(g.edge_count(), 4);
    assert_eq!(edge_weights(&g), vec![(0, 1), (0, 2), (1, 3), (2, 3)]);
}

#[test]
fn cfg_prunes_unreachable() {
    // the second block jumps into the first, but nothing reaches it
    let f = func(vec![ret_block("a", "v"), jump_block("dead", "a")]);
    let g = f.cfg();
    assert_eq!(g.node_count(), 1);
    assert_eq!(g.edge_count(), 0);
    let ws: Vec<usize> = g.node_weights().copied().collect();
    assert_eq!(ws, vec![0]);
}

#[test]
fn cfg_self_loop() {
    let f = func(vec![branch_block("a", "a", "b"), ret_block("b", "v")]);
    let g = f.cfg();
    assert_eq!(g.node_count(), 2);
    assert_eq!(g.edge_count(), 2);
    assert_eq!(edge_weights(&g), vec![(0, 0), (0, 1)]);
}

#[test]
fn cfg_branch_both_arms_same_target() {
    let f = func(vec![branch_block("a", "b", "b"), ret_block("b", "v")]);
    let g = f.cfg();
    assert_eq!(g.node_count(), 2);
    // both successor slots lead to the same block
    assert_eq!(edge_weights(&g), vec![(0, 1), (0, 1)]);
}
