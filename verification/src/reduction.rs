//! The 3-SAT to graph-3-coloring reduction: a gadget graph built over
//! petgraph's undirected graph, whose proper 3-colorings correspond to
//! the formula's satisfying assignments.

use vstd::prelude::*;
use vstd::string::StringExecFns;
use crate::cnf::{Clause, Literal, Negated, clause_in_range, clause_str, lit_display};
use crate::sat::{SAT, formula_in_range};

verus! {

/// The reduction graph representation: string-labeled nodes, unlabeled
/// undirected edges, compact u32 indices.
pub type RGraph = petgraph::graph::Graph<String, (), petgraph::Undirected, u32>;

#[verifier::external_type_specification]
#[verifier::external_body]
#[verifier::reject_recursive_types(N)]
#[verifier::reject_recursive_types(E)]
#[verifier::reject_recursive_types(Ty)]
#[verifier::reject_recursive_types(Ix)]
pub struct ExGraph<N, E, Ty, Ix>(petgraph::graph::Graph<N, E, Ty, Ix>);

#[verifier::external_type_specification]
#[verifier::external_body]
pub struct ExUndirected(petgraph::Undirected);

/// What the graph holds: its node labels, in insertion order.
pub uninterp spec fn graph_nodes(g: RGraph) -> Seq<Seq<char>>;

/// What the graph holds: its edges as endpoint index pairs, in insertion
/// order, each pair as it was inserted.
pub uninterp spec fn graph_edges(g: RGraph) -> Seq<(usize, usize)>;

/// Relies on petgraph's `Graph::new_undirected`: the new graph holds no
/// nodes and no edges.
#[verifier::external_body]
fn graph_new() -> (g: RGraph)
    ensures
        graph_nodes(g) == Seq::<Seq<char>>::empty(),
        graph_edges(g) == Seq::<(usize, usize)>::empty(),
{
    petgraph::graph::Graph::new_undirected()
}

/// Relies on petgraph's `Graph::add_node`: the label is appended to the
/// node list and the new node's index, the former node count, is
/// returned. The call panics only at the u32 index capacity, which the
/// precondition rules out.
#[verifier::external_body]
fn graph_add_node(g: &mut RGraph, label: String) -> (idx: usize)
    requires
        graph_nodes(*old(g)).len() < 0xFFFF_FFFF,
    ensures
        graph_nodes(*final(g)) == graph_nodes(*old(g)).push(label@),
        graph_edges(*final(g)) == graph_edges(*old(g)),
        idx == graph_nodes(*old(g)).len(),
{
    g.add_node(label).index()
}

/// Relies on petgraph's `Graph::add_edge`: the endpoint pair is appended
/// to the edge list (the graph is a multigraph, so no deduplication
/// happens). The call panics only on a missing endpoint or at the u32
/// index capacity, which the preconditions rule out.
#[verifier::external_body]
fn graph_add_edge(g: &mut RGraph, a: usize, b: usize)
    requires
        a < graph_nodes(*old(g)).len(),
        b < graph_nodes(*old(g)).len(),
        graph_edges(*old(g)).len() < 0xFFFF_FFFF,
    ensures
        graph_nodes(*final(g)) == graph_nodes(*old(g)),
        graph_edges(*final(g)) == graph_edges(*old(g)).push((a, b)),
{
    g.add_edge(petgraph::graph::NodeIndex::new(a), petgraph::graph::NodeIndex::new(b), ());
}

/// Relies on petgraph's `Graph::node_count`: the length of the node
/// list.
#[verifier::external_body]
pub fn graph_node_count(g: &RGraph) -> (r: usize)
    ensures
        r == graph_nodes(*g).len(),
{
    g.node_count()
}

/// Relies on petgraph's `Graph::edge_count`: the length of the edge
/// list.
#[verifier::external_body]
pub fn graph_edge_count(g: &RGraph) -> (r: usize)
    ensures
        r == graph_edges(*g).len(),
{
    g.edge_count()
}

/// Relies on petgraph's `Graph::node_weight`: the label stored at a node
/// index, or `None` past the node count.
#[verifier::external_body]
pub fn graph_node_label(g: &RGraph, i: usize) -> (r: Option<String>)
    requires
        i < 0xFFFF_FFFF,
    ensures
        r matches Some(s) ==> i < graph_nodes(*g).len() && s@ == graph_nodes(*g)[i as int],
        r is None ==> i >= graph_nodes(*g).len(),
{
    g.node_weight(petgraph::graph::NodeIndex::new(i)).cloned()
}

/// Relies on petgraph's `Graph::edge_endpoints`: the endpoints of edge
/// `e` exactly as the edge was inserted, or `None` past the edge count.
#[verifier::external_body]
pub fn graph_edge_endpoints(g: &RGraph, e: usize) -> (r: Option<(usize, usize)>)
    requires
        e < 0xFFFF_FFFF,
    ensures
        e < graph_edges(*g).len() ==> r == Some(graph_edges(*g)[e as int]),
        e >= graph_edges(*g).len() ==> r is None,
{
    g.edge_endpoints(petgraph::graph::EdgeIndex::new(e)).map(|p| (p.0.index(), p.1.index()))
}

/// The ground node holding the color of truth.
pub open spec fn t_node() -> usize {
    0
}

/// The ground node holding the color of falsehood.
pub open spec fn f_node() -> usize {
    1
}

/// The ground node anchoring the third color class.
pub open spec fn b_node() -> usize {
    2
}

/// An edge pair, with both endpoints narrowed to indices.
pub open spec fn ep(a: int, b: int) -> (usize, usize)
    recommends
        0 <= a < usize::MAX,
        0 <= b < usize::MAX,
{
    (a as usize, b as usize)
}

/// The label of an anonymous gadget node.
pub open spec fn gadget_label() -> Seq<char> {
    seq!['-']
}

/// The label of a literal's negation node: the display form prefixed
/// with a negation sign.
pub open spec fn neg_display(l: Literal) -> Seq<char> {
    seq!['¬'] + lit_display(l)
}

/// The first node index of clause `k`'s block: twelve nodes per clause
/// after the three ground nodes.
pub open spec fn clause_base(k: int) -> int {
    3 + 12 * k
}

/// The twelve nodes a clause contributes, in insertion order: six
/// anonymous gadget nodes, then a node and a negation node for each of
/// its three literals.
pub open spec fn clause_nodes(c: Clause) -> Seq<Seq<char>> {
    seq![
        gadget_label(),
        gadget_label(),
        gadget_label(),
        gadget_label(),
        gadget_label(),
        gadget_label(),
        lit_display(c.literals[0]),
        neg_display(c.literals[0]),
        lit_display(c.literals[1]),
        neg_display(c.literals[1]),
        lit_display(c.literals[2]),
        neg_display(c.literals[2]),
    ]
}

/// The node that literal slot `i` wires into the gadget: the negation
/// node when the literal is negated, else the plain node.
pub open spec fn wire_node(l: Literal, base: int, i: int) -> int {
    match l.negated {
        Negated::YES => base + 7 + 2 * i,
        Negated::NO => base + 6 + 2 * i,
    }
}

/// The gadget anchor for literal slot `i`: the first two literals enter
/// the first triangle, the third enters the second.
pub open spec fn anchor_node(base: int, i: int) -> int {
    if i == 0 {
        base
    } else if i == 1 {
        base + 1
    } else {
        base + 4
    }
}

/// The twenty-one edges a clause contributes, in insertion order: the
/// nine fixed gadget edges (two stacked triangles, the second tied to
/// the Base and False ground nodes), then per literal its pair edge, two
/// edges to Base, and the wiring edge into the gadget.
pub open spec fn clause_edges(c: Clause, base: int) -> Seq<(usize, usize)> {
    seq![
        ep(base, base + 1),
        ep(base, base + 2),
        ep(base + 1, base + 2),
        ep(base + 2, base + 3),
        ep(base + 4, base + 3),
        ep(base + 3, base + 5),
        ep(base + 4, base + 5),
        ep(base + 5, b_node() as int),
        ep(base + 5, f_node() as int),
        ep(base + 6, base + 7),
        ep(base + 6, b_node() as int),
        ep(base + 7, b_node() as int),
        ep(wire_node(c.literals[0], base, 0), anchor_node(base, 0)),
        ep(base + 8, base + 9),
        ep(base + 8, b_node() as int),
        ep(base + 9, b_node() as int),
        ep(wire_node(c.literals[1], base, 1), anchor_node(base, 1)),
        ep(base + 10, base + 11),
        ep(base + 10, b_node() as int),
        ep(base + 11, b_node() as int),
        ep(wire_node(c.literals[2], base, 2), anchor_node(base, 2)),
    ]
}

/// The node labels of the whole reduction graph for a clause sequence.
pub open spec fn reduction_nodes(clauses: Seq<Clause>) -> Seq<Seq<char>>
    decreases clauses.len(),
{
    if clauses.len() == 0 {
        seq![seq!['T'], seq!['F'], seq!['B']]
    } else {
        reduction_nodes(clauses.drop_last()) + clause_nodes(clauses.last())
    }
}

/// The edges of the whole reduction graph for a clause sequence.
pub open spec fn reduction_edges(clauses: Seq<Clause>) -> Seq<(usize, usize)>
    decreases clauses.len(),
{
    if clauses.len() == 0 {
        seq![(0usize, 1usize), (1usize, 2usize), (0usize, 2usize)]
    } else {
        reduction_edges(clauses.drop_last()) + clause_edges(
            clauses.last(),
            clause_base(clauses.len() - 1),
        )
    }
}

/// The reduction graph's sizes are affine in the clause count: three
/// ground nodes and three ground edges, then twelve nodes and twenty-one
/// edges for every clause.
pub proof fn lemma_reduction_sizes(clauses: Seq<Clause>)
    ensures
        reduction_nodes(clauses).len() == 3 + 12 * clauses.len(),
        reduction_edges(clauses).len() == 3 + 21 * clauses.len(),
    decreases clauses.len(),
{
    if clauses.len() > 0 {
        lemma_reduction_sizes(clauses.drop_last());
    }
}

/// The ground triangle stands whatever the formula holds: the first
/// three nodes are labeled T, F and B, and the first three edges connect
/// them pairwise.
pub proof fn lemma_ground_triangle(clauses: Seq<Clause>)
    ensures
        reduction_nodes(clauses).len() >= 3,
        reduction_nodes(clauses)[0] == seq!['T'],
        reduction_nodes(clauses)[1] == seq!['F'],
        reduction_nodes(clauses)[2] == seq!['B'],
        reduction_edges(clauses).len() >= 3,
        reduction_edges(clauses)[0] == (0usize, 1usize),
        reduction_edges(clauses)[1] == (1usize, 2usize),
        reduction_edges(clauses)[2] == (0usize, 2usize),
    decreases clauses.len(),
{
    if clauses.len() > 0 {
        lemma_ground_triangle(clauses.drop_last());
    }
}

/// Each clause contributes exactly its own block: twelve nodes and
/// twenty-one edges, at the base index of its position.
pub proof fn lemma_clause_block(clauses: Seq<Clause>, k: int)
    requires
        0 <= k < clauses.len(),
    ensures
        clause_nodes(clauses[k]).len() == 12,
        clause_edges(clauses[k], clause_base(k)).len() == 21,
        reduction_nodes(clauses.take(k + 1)) == reduction_nodes(clauses.take(k)) + clause_nodes(
            clauses[k],
        ),
        reduction_edges(clauses.take(k + 1)) == reduction_edges(clauses.take(k)) + clause_edges(
            clauses[k],
            clause_base(k),
        ),
{
    assert(clauses.take(k + 1).drop_last() =~= clauses.take(k));
    assert(clauses.take(k + 1).last() == clauses[k]);
}

/// The reduction is deterministic: two graphs whose contents both equal
/// the reduction of one clause sequence agree in their full node and
/// edge sequences, in particular in node and edge counts.
pub proof fn lemma_reduction_deterministic(
    clauses: Seq<Clause>,
    rg1: ReductionGraph,
    rg2: ReductionGraph,
)
    requires
        graph_nodes(rg1.graph) == reduction_nodes(clauses),
        graph_edges(rg1.graph) == reduction_edges(clauses),
        graph_nodes(rg2.graph) == reduction_nodes(clauses),
        graph_edges(rg2.graph) == reduction_edges(clauses),
    ensures
        graph_nodes(rg1.graph) == graph_nodes(rg2.graph),
        graph_edges(rg1.graph) == graph_edges(rg2.graph),
        graph_nodes(rg1.graph).len() == graph_nodes(rg2.graph).len(),
        graph_edges(rg1.graph).len() == graph_edges(rg2.graph).len(),
{
}

/// Per-clause grouping metadata for visualization: the clause's
/// rendering and the edges its block contributed.
pub struct ClauseGroup {
    pub label: String,
    pub edges: Vec<(usize, usize)>,
}

/// The built reduction graph: the graph itself plus per-clause grouping
/// metadata.
pub struct ReductionGraph {
    pub graph: RGraph,
    pub groups: Vec<ClauseGroup>,
}

/// The anonymous gadget node label.
fn dash() -> (r: String)
    ensures
        r@ == gadget_label(),
{
    proof {
        reveal_strlit("-");
    }
    let s = String::from_str("-");
    assert(s@ =~= gadget_label());
    s
}

/// The negation-node label: a negation sign before the literal's
/// display form.
fn neg_string(l: &Literal) -> (r: String)
    requires
        l.index < usize::MAX,
    ensures
        r@ == neg_display(*l),
{
    let mut s = String::new();
    proof {
        reveal_strlit("¬");
    }
    s.append("¬");
    let d = l.to_string();
    s.append(d.as_str());
    assert(s@ =~= neg_display(*l));
    s
}

/// Appends one gadget edge both to the graph and to the clause's
/// grouping record.
fn add_clause_edge(g: &mut RGraph, list: &mut Vec<(usize, usize)>, a: usize, b: usize)
    requires
        a < graph_nodes(*old(g)).len(),
        b < graph_nodes(*old(g)).len(),
        graph_edges(*old(g)).len() < 0xFFFF_FFFF,
    ensures
        graph_nodes(*final(g)) == graph_nodes(*old(g)),
        graph_edges(*final(g)) == graph_edges(*old(g)).push((a, b)),
        final(list)@ == old(list)@.push((a, b)),
{
    graph_add_edge(g, a, b);
    list.push((a, b));
}

/// Adds one clause's block to the graph: the six-node OR gadget, a node
/// and a negation node per literal, and the twenty-one edges that tie
/// them to each other and to the ground nodes. Returns the clause's
/// grouping record.
#[verifier::rlimit(60)]
fn add_clause_block(graph: &mut RGraph, c: &Clause) -> (group: ClauseGroup)
    requires
        clause_in_range(*c, usize::MAX as int),
        graph_nodes(*old(graph)).len() + 12 < 0xFFFF_FFFF,
        graph_edges(*old(graph)).len() + 21 < 0xFFFF_FFFF,
    ensures
        graph_nodes(*final(graph)) == graph_nodes(*old(graph)) + clause_nodes(*c),
        graph_edges(*final(graph)) == graph_edges(*old(graph)) + clause_edges(
            *c,
            graph_nodes(*old(graph)).len() as int,
        ),
        group.label@ == clause_str(*c),
        group.edges@ == clause_edges(*c, graph_nodes(*old(graph)).len() as int),
{
    assert(c.literals[0].index < usize::MAX);
    assert(c.literals[1].index < usize::MAX);
    assert(c.literals[2].index < usize::MAX);
    let ghost nodes0 = graph_nodes(*graph);
    let ghost edges0 = graph_edges(*graph);
    let base = graph_node_count(graph);
    let f: usize = 1;
    let b: usize = 2;
    let g1 = graph_add_node(graph, dash());
    let g2 = graph_add_node(graph, dash());
    let g3 = graph_add_node(graph, dash());
    let g4 = graph_add_node(graph, dash());
    let g5 = graph_add_node(graph, dash());
    let g6 = graph_add_node(graph, dash());
    let lit0 = graph_add_node(graph, c.literals[0].to_string());
    let neg0 = graph_add_node(graph, neg_string(&c.literals[0]));
    let lit1 = graph_add_node(graph, c.literals[1].to_string());
    let neg1 = graph_add_node(graph, neg_string(&c.literals[1]));
    let lit2 = graph_add_node(graph, c.literals[2].to_string());
    let neg2 = graph_add_node(graph, neg_string(&c.literals[2]));
    assert(graph_nodes(*graph) =~= nodes0 + clause_nodes(*c));
    let mut clause_edge_list: Vec<(usize, usize)> = Vec::new();
    add_clause_edge(graph, &mut clause_edge_list, g1, g2);
    add_clause_edge(graph, &mut clause_edge_list, g1, g3);
    add_clause_edge(graph, &mut clause_edge_list, g2, g3);
    add_clause_edge(graph, &mut clause_edge_list, g3, g4);
    add_clause_edge(graph, &mut clause_edge_list, g5, g4);
    add_clause_edge(graph, &mut clause_edge_list, g4, g6);
    add_clause_edge(graph, &mut clause_edge_list, g5, g6);
    add_clause_edge(graph, &mut clause_edge_list, g6, b);
    add_clause_edge(graph, &mut clause_edge_list, g6, f);
    add_clause_edge(graph, &mut clause_edge_list, lit0, neg0);
    add_clause_edge(graph, &mut clause_edge_list, lit0, b);
    add_clause_edge(graph, &mut clause_edge_list, neg0, b);
    let w0 = match c.literals[0].negated {
        Negated::YES => neg0,
        Negated::NO => lit0,
    };
    add_clause_edge(graph, &mut clause_edge_list, w0, g1);
    add_clause_edge(graph, &mut clause_edge_list, lit1, neg1);
    add_clause_edge(graph, &mut clause_edge_list, lit1, b);
    add_clause_edge(graph, &mut clause_edge_list, neg1, b);
    let w1 = match c.literals[1].negated {
        Negated::YES => neg1,
        Negated::NO => lit1,
    };
    add_clause_edge(graph, &mut clause_edge_list, w1, g2);
    add_clause_edge(graph, &mut clause_edge_list, lit2, neg2);
    add_clause_edge(graph, &mut clause_edge_list, lit2, b);
    add_clause_edge(graph, &mut clause_edge_list, neg2, b);
    let w2 = match c.literals[2].negated {
        Negated::YES => neg2,
        Negated::NO => lit2,
    };
    add_clause_edge(graph, &mut clause_edge_list, w2, g5);
    assert(graph_edges(*graph) =~= edges0 + clause_edges(*c, base as int));
    assert(clause_edge_list@ =~= clause_edges(*c, base as int));
    let label = c.to_string();
    ClauseGroup { label, edges: clause_edge_list }
}

/// Builds the reduction graph of a formula: the shared ground triangle,
/// then, for every clause, a pair of nodes per literal tied to each
/// other and to Base, and a six-node OR gadget wired to the literals'
/// nodes. The graph's nodes and edges are exactly the reduction of the
/// clause sequence, so the construction is deterministic.
pub fn build_reduction_graph(sat: &SAT) -> (rg: ReductionGraph)
    requires
        sat.clauses@.len() <= 100_000_000,
        formula_in_range(sat.clauses@, usize::MAX as int),
    ensures
        graph_nodes(rg.graph) == reduction_nodes(sat.clauses@),
        graph_edges(rg.graph) == reduction_edges(sat.clauses@),
        rg.groups@.len() == sat.clauses@.len(),
        forall|j: int|
            0 <= j < sat.clauses@.len() ==> (#[trigger] rg.groups@[j]).label@ == clause_str(
                sat.clauses@[j],
            ) && rg.groups@[j].edges@ == clause_edges(sat.clauses@[j], clause_base(j)),
{
    let mut graph = graph_new();
    proof {
        reveal_strlit("T");
        reveal_strlit("F");
        reveal_strlit("B");
    }
    let t = graph_add_node(&mut graph, String::from_str("T"));
    let f = graph_add_node(&mut graph, String::from_str("F"));
    let b = graph_add_node(&mut graph, String::from_str("B"));
    graph_add_edge(&mut graph, t, f);
    graph_add_edge(&mut graph, f, b);
    graph_add_edge(&mut graph, t, b);
    assert("T"@ =~= seq!['T']);
    assert("F"@ =~= seq!['F']);
    assert("B"@ =~= seq!['B']);
    assert(graph_nodes(graph) =~= reduction_nodes(Seq::<Clause>::empty()));
    assert(graph_edges(graph) =~= reduction_edges(Seq::<Clause>::empty()));
    assert(sat.clauses@.take(0) =~= Seq::<Clause>::empty());
    let mut groups: Vec<ClauseGroup> = Vec::new();
    let count = sat.clauses.len();
    for k in 0..count
        invariant
            count == sat.clauses@.len(),
            count <= 100_000_000,
            formula_in_range(sat.clauses@, usize::MAX as int),
            graph_nodes(graph) == reduction_nodes(sat.clauses@.take(k as int)),
            graph_edges(graph) == reduction_edges(sat.clauses@.take(k as int)),
            groups@.len() == k,
            forall|j: int|
                0 <= j < k ==> (#[trigger] groups@[j]).label@ == clause_str(sat.clauses@[j])
                    && groups@[j].edges@ == clause_edges(sat.clauses@[j], clause_base(j)),
    {
        proof {
            lemma_reduction_sizes(sat.clauses@.take(k as int));
        }
        let c = sat.clauses[k];
        assert(clause_in_range(c, usize::MAX as int));
        let ghost base = graph_nodes(graph).len() as int;
        let group = add_clause_block(&mut graph, &c);
        groups.push(group);
        proof {
            let taken = sat.clauses@.take(k + 1 as int);
            assert(taken.drop_last() =~= sat.clauses@.take(k as int));
            assert(taken.last() == sat.clauses@[k as int]);
            assert(base == clause_base(k as int));
            assert(graph_nodes(graph) == reduction_nodes(taken));
            assert(graph_edges(graph) == reduction_edges(taken));
        }
    }
    assert(sat.clauses@.take(count as int) == sat.clauses@);
    ReductionGraph { graph, groups }
}

} // verus!
