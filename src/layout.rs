//! The fixed node skeleton, described exactly by where each node sits.
//!
//! The outer pentagon has circumradius 100 around the origin, its first
//! vertex at -90 degrees. Each of its 5 sides carries 4 nodes at the fractions
//! 1/5 .. 4/5 of the way from its first vertex to the next. Three inner rings,
//! of radii 75, 50 and 25, carry 4 nodes each at 90-degree spacing, ring `k`
//! turned by `k * 22.5` degrees.

use vstd::prelude::*;
use crate::edges::NODE_COUNT;

verus! {

/// Number of nodes on the outer pentagon.
pub const OUTER_NODE_COUNT: usize = 20;

/// Where a node sits in the skeleton.
#[derive(Clone, Copy, Debug, PartialEq, Eq, Structural)]
pub enum NodeSite {
    /// On pentagon side `side` (0..5), `step` fifths (1..=4) of the way along it.
    Side { side: usize, step: usize },
    /// On inner ring `ring` (1..=3, radius `100 - 25 * ring`), at spoke `spoke` (0..4).
    Ring { ring: usize, spoke: usize },
}

/// The site of node `i`.
pub open spec fn site_at(i: int) -> NodeSite {
    if i < OUTER_NODE_COUNT {
        NodeSite::Side { side: (i / 4) as usize, step: (i % 4 + 1) as usize }
    } else {
        NodeSite::Ring { ring: ((i - OUTER_NODE_COUNT) / 4 + 1) as usize, spoke: ((i - OUTER_NODE_COUNT) % 4) as usize }
    }
}

/// The whole layout, in node order.
pub open spec fn node_layout() -> Seq<NodeSite> {
    Seq::new(NODE_COUNT as nat, |i: int| site_at(i))
}

/// The 32 node sites: 4 per pentagon side, side by side, then 4 per inner
/// ring from the outermost ring inwards.
pub fn generate_nodes() -> (r: Vec<NodeSite>)
    ensures
        r@ == node_layout(),
        r@.len() == NODE_COUNT,
{
    let mut nodes: Vec<NodeSite> = Vec::new();
    let mut i: usize = 0;
    while i < NODE_COUNT
        invariant
            0 <= i <= NODE_COUNT,
            nodes@.len() == i,
            forall|k: int| 0 <= k < i ==> #[trigger] nodes@[k] == site_at(k),
        decreases NODE_COUNT - i,
    {
        if i < OUTER_NODE_COUNT {
            nodes.push(NodeSite::Side { side: i / 4, step: i % 4 + 1 });
        } else {
            nodes.push(NodeSite::Ring { ring: (i - OUTER_NODE_COUNT) / 4 + 1, spoke: (i - OUTER_NODE_COUNT) % 4 });
        }
        i += 1;
    }
    assert(nodes@ =~= node_layout());
    nodes
}

} // verus!
