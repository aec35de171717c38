//! A glyph: the fixed node layout with its synthesized edges, and the palette
//! that edges are drawn in.

use vstd::prelude::*;
use crate::edges::{
    colors_by_phase, generate_edges, joins, mask_len, request_in_range, requested_edges,
    synthesized_edges, valid_edges, walk_edges, walk_len, Edge, EdgeInput,
};
use crate::layout::{generate_nodes, node_layout, NodeSite};

verus! {

/// Nodes and edges of one glyph. Edges name nodes by their index in `nodes`.
#[derive(Clone, Debug)]
pub struct Pattern {
    pub nodes: Vec<NodeSite>,
    pub edges: Vec<Edge>,
}

/// Number of palette entries.
pub const PALETTE_LEN: usize = 5;

/// The palette entry at `i`, as a colour string.
pub open spec fn palette(i: int) -> Seq<char> {
    if i == 0 {
        "#C69572"@
    } else if i == 1 {
        "#94B4C6"@
    } else if i == 2 {
        "#4A6C82"@
    } else if i == 3 {
        "#F2F4F6"@
    } else {
        "#888888"@
    }
}

/// The colour that an edge of colour index `color` is drawn in: the palette
/// entry at `color % 5`. Entry 3, white, is also the node colour.
pub fn palette_color(color: usize) -> (r: &'static str)
    ensures
        r@ == palette((color % PALETTE_LEN) as int),
{
    let i = color % PALETTE_LEN;
    if i == 0 {
        "#C69572"
    } else if i == 1 {
        "#94B4C6"
    } else if i == 2 {
        "#4A6C82"
    } else if i == 3 {
        "#F2F4F6"
    } else {
        "#888888"
    }
}

/// Builds the glyph for a seed, requested edges and a nonce: the fixed layout
/// and the synthesized edges.
pub fn generate_pattern(id_seed: u32, free_edges: &[EdgeInput], mask_nonce: u32) -> (r: Pattern)
    ensures
        r.nodes@ == node_layout(),
        r.nodes@.len() == 32,
        r.edges@ == synthesized_edges(id_seed, free_edges@, mask_nonce),
        valid_edges(r.edges@),
        colors_by_phase(
            r.edges@,
            walk_edges(id_seed, mask_nonce).len() as int,
            requested_edges(id_seed, free_edges@, mask_nonce).len() as int,
        ),
        walk_edges(id_seed, mask_nonce).len() <= walk_len(id_seed),
        r.edges@.len() - requested_edges(id_seed, free_edges@, mask_nonce).len() <= mask_len(
            mask_nonce,
        ),
        forall|i: int, j: int|
            0 <= i < r.edges@.len() && 0 <= j < free_edges@.len() && (free_edges@[j].start
                == free_edges@[j].end || !request_in_range(free_edges@[j])) ==> !joins(
                #[trigger] r.edges@[i],
                (#[trigger] free_edges@[j]).start,
                free_edges@[j].end,
            ),
{
    let nodes = generate_nodes();
    let edges = generate_edges(id_seed, free_edges, mask_nonce);
    Pattern { nodes, edges }
}

/// Equal inputs give equal glyphs: the nodes are always the fixed layout and
/// the edges depend on the seed, the requests and the nonce alone.
pub proof fn pattern_is_deterministic(
    seed: u32,
    nonce: u32,
    free_a: Seq<EdgeInput>,
    free_b: Seq<EdgeInput>,
    a: Pattern,
    b: Pattern,
)
    requires
        free_a == free_b,
        a.nodes@ == node_layout(),
        a.edges@ == synthesized_edges(seed, free_a, nonce),
        b.nodes@ == node_layout(),
        b.edges@ == synthesized_edges(seed, free_b, nonce),
    ensures
        a.nodes@ == b.nodes@,
        a.edges@ == b.edges@,
{
}

/// The node layout is the same whatever the seed, nonce and requests: two
/// glyphs always have the same 32 nodes.
pub proof fn nodes_are_input_independent(a: Pattern, b: Pattern)
    requires
        a.nodes@ == node_layout(),
        b.nodes@ == node_layout(),
    ensures
        a.nodes@.len() == 32,
        a.nodes@ == b.nodes@,
{
}

/// A valid edge list holds no self-loop and no endpoint outside the layout, so
/// a request that is either never appears in it.
pub proof fn invalid_request_is_absent(edges: Seq<Edge>, req: EdgeInput)
    requires
        valid_edges(edges),
        req.start == req.end || !request_in_range(req),
    ensures
        forall|i: int| 0 <= i < edges.len() ==> !joins(#[trigger] edges[i], req.start, req.end),
{
    assert forall|i: int| 0 <= i < edges.len() implies !joins(#[trigger] edges[i], req.start, req.end) by {
        assert(crate::edges::edge_in_range(edges[i]));
    }
}

} // verus!
