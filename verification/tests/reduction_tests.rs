use pmi3sat::cnf::{Clause, Negated};
use pmi3sat::reduction::{
    ReductionGraph, build_reduction_graph, graph_edge_count, graph_edge_endpoints,
    graph_node_count, graph_node_label,
};
use pmi3sat::sat::SAT;

fn example_formula() -> SAT {
    let c0 = Clause::new([0, 1, 2], [Negated::NO, Negated::NO, Negated::YES]);
    let c1 = Clause::new([2, 0, 1], [Negated::YES, Negated::NO, Negated::NO]);
    SAT::new(vec![c0, c1])
}

fn edges_of(rg: &ReductionGraph) -> Vec<(usize, usize)> {
    let mut edges = Vec::new();
    for e in 0..graph_edge_count(&rg.graph) {
        edges.push(graph_edge_endpoints(&rg.graph, e).unwrap());
    }
    edges
}

#[test]
fn ground_triangle_stands_alone() {
    let rg = build_reduction_graph(&SAT::new(vec![]));
    assert_eq!(graph_node_count(&rg.graph), 3);
    assert_eq!(graph_edge_count(&rg.graph), 3);
    assert_eq!(graph_node_label(&rg.graph, 0).unwrap(), "T");
    assert_eq!(graph_node_label(&rg.graph, 1).unwrap(), "F");
    assert_eq!(graph_node_label(&rg.graph, 2).unwrap(), "B");
    assert_eq!(edges_of(&rg), vec![(0, 1), (1, 2), (0, 2)]);
    assert!(rg.groups.is_empty());
}

#[test]
fn each_clause_contributes_twelve_nodes_and_twenty_one_edges() {
    let rg = build_reduction_graph(&example_formula());
    assert_eq!(graph_node_count(&rg.graph), 3 + 2 * 12);
    assert_eq!(graph_edge_count(&rg.graph), 3 + 2 * 21);
    assert_eq!(rg.groups.len(), 2);
    for group in &rg.groups {
        assert_eq!(group.edges.len(), 21);
    }
    // The ground triangle is untouched by the clauses.
    let edges = edges_of(&rg);
    assert_eq!(&edges[0..3], &[(0, 1), (1, 2), (0, 2)]);
}

#[test]
fn clause_block_nodes_and_wiring() {
    // First clause (x0 || x1 || !x2), block base 3: six gadget nodes,
    // then literal/negation pairs with one-based display labels.
    let rg = build_reduction_graph(&example_formula());
    for g in 3..9 {
        assert_eq!(graph_node_label(&rg.graph, g).unwrap(), "-");
    }
    assert_eq!(graph_node_label(&rg.graph, 9).unwrap(), "x1");
    assert_eq!(graph_node_label(&rg.graph, 10).unwrap(), "\u{ac}x1");
    assert_eq!(graph_node_label(&rg.graph, 11).unwrap(), "x2");
    assert_eq!(graph_node_label(&rg.graph, 12).unwrap(), "\u{ac}x2");
    assert_eq!(graph_node_label(&rg.graph, 13).unwrap(), "x3");
    assert_eq!(graph_node_label(&rg.graph, 14).unwrap(), "\u{ac}x3");
    let group = &rg.groups[0];
    assert_eq!(group.label, "x0 || x1 || !x2");
    // The nine fixed gadget edges, tied to Base (2) and False (1).
    assert_eq!(
        &group.edges[0..9],
        &[(3, 4), (3, 5), (4, 5), (5, 6), (7, 6), (6, 8), (7, 8), (8, 2), (8, 1)]
    );
    // Literal pairs tied to each other and to Base, and the wiring: the
    // plain nodes for x0 and x1, the negation node for !x2.
    assert_eq!(&group.edges[9..13], &[(9, 10), (9, 2), (10, 2), (9, 3)]);
    assert_eq!(&group.edges[13..17], &[(11, 12), (11, 2), (12, 2), (11, 4)]);
    assert_eq!(&group.edges[17..21], &[(13, 14), (13, 2), (14, 2), (14, 7)]);
}

#[test]
fn second_clause_block_starts_after_the_first() {
    let rg = build_reduction_graph(&example_formula());
    // Second clause (!x2 || x0 || x1), block base 15.
    for g in 15..21 {
        assert_eq!(graph_node_label(&rg.graph, g).unwrap(), "-");
    }
    assert_eq!(graph_node_label(&rg.graph, 21).unwrap(), "x3");
    assert_eq!(graph_node_label(&rg.graph, 22).unwrap(), "\u{ac}x3");
    let group = &rg.groups[1];
    assert_eq!(group.label, "!x2 || x0 || x1");
    // The first literal is negated, so its negation node wires in.
    assert_eq!(group.edges[12], (22, 15));
}

#[test]
fn reduction_is_deterministic() {
    let rg1 = build_reduction_graph(&example_formula());
    let rg2 = build_reduction_graph(&example_formula());
    assert_eq!(graph_node_count(&rg1.graph), graph_node_count(&rg2.graph));
    assert_eq!(graph_edge_count(&rg1.graph), graph_edge_count(&rg2.graph));
    assert_eq!(edges_of(&rg1), edges_of(&rg2));
    for i in 0..graph_node_count(&rg1.graph) {
        assert_eq!(graph_node_label(&rg1.graph, i), graph_node_label(&rg2.graph, i));
    }
}

#[test]
fn node_and_edge_lookups_past_the_end_are_none() {
    let rg = build_reduction_graph(&SAT::new(vec![]));
    assert!(graph_node_label(&rg.graph, 3).is_none());
    assert!(graph_edge_endpoints(&rg.graph, 3).is_none());
}
