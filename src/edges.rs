//! Edge synthesis: a seeded walk, the caller's requested edges, and mask noise,
//! with no self-loop and no undirected pair twice.

use vstd::prelude::*;
use crate::rng::{draw_below, initial_state, rng_draw, seed_state};

verus! {

/// Number of nodes in the fixed layout.
pub const NODE_COUNT: usize = 32;

/// Number of colours that walk edges choose from (indices `0..WALK_COLORS`).
pub const WALK_COLORS: usize = 3;

/// Colour index of an accepted requested edge.
pub const FREE_EDGE_COLOR: usize = 3;

/// Colour index of a mask edge.
pub const MASK_EDGE_COLOR: usize = 4;

/// An undirected connection between two node indices, with a palette index.
#[derive(Clone, Copy, Debug, PartialEq, Eq, Structural)]
pub struct Edge {
    pub start: usize,
    pub end: usize,
    pub color: usize,
}

/// A connection that a caller asks for, not yet validated.
#[derive(Clone, Copy, Debug, PartialEq, Eq, Structural)]
pub struct EdgeInput {
    pub start: usize,
    pub end: usize,
}

/// `e` connects `a` and `b`, in either direction.
pub open spec fn joins(e: Edge, a: usize, b: usize) -> bool {
    (e.start == a && e.end == b) || (e.start == b && e.end == a)
}

/// Some edge of `s` connects `a` and `b`.
pub open spec fn has_pair(s: Seq<Edge>, a: usize, b: usize) -> bool {
    exists|i: int| 0 <= i < s.len() && joins(#[trigger] s[i], a, b)
}

/// The candidate `(a, b)` may be added to `s`: it is no self-loop and its pair is new.
pub open spec fn is_new_edge_spec(s: Seq<Edge>, a: usize, b: usize) -> bool {
    a != b && !has_pair(s, a, b)
}

/// `s` with the edge `(a, b, color)` appended when it is new, else `s`.
pub open spec fn add_if_new(s: Seq<Edge>, a: usize, b: usize, color: usize) -> Seq<Edge> {
    if is_new_edge_spec(s, a, b) {
        s.push(Edge { start: a, end: b, color })
    } else {
        s
    }
}

/// Both endpoints of a request name a node of the layout.
pub open spec fn request_in_range(r: EdgeInput) -> bool {
    r.start < NODE_COUNT && r.end < NODE_COUNT
}

/// `s` after the requests of `reqs`, in order, each added when in range and new.
pub open spec fn add_requests(s: Seq<Edge>, reqs: Seq<EdgeInput>) -> Seq<Edge>
    decreases reqs.len(),
{
    if reqs.len() == 0 {
        s
    } else {
        let prev = add_requests(s, reqs.drop_last());
        let r = reqs.last();
        if request_in_range(r) {
            add_if_new(prev, r.start, r.end, FREE_EDGE_COLOR)
        } else {
            prev
        }
    }
}

/// Number of walk steps for a seed.
pub open spec fn walk_len(seed: u32) -> nat {
    15 + (seed % 5) as nat
}

/// Number of mask attempts for a nonce.
pub open spec fn mask_len(nonce: u32) -> nat {
    3 + (nonce % 3) as nat
}

/// The walk after `steps` steps: its edges, the current node and the generator
/// state. Each step draws the next node; a new pair draws its colour and is
/// added; the walk moves to the drawn node either way.
pub open spec fn walk(seed: u32, nonce: u32, steps: nat) -> (Seq<Edge>, usize, u64)
    decreases steps,
{
    if steps == 0 {
        (Seq::empty(), (seed % 32) as usize, initial_state(seed, nonce))
    } else {
        let prev = walk(seed, nonce, (steps - 1) as nat);
        let drawn = rng_draw(prev.2, NODE_COUNT);
        let next = drawn.0;
        if is_new_edge_spec(prev.0, prev.1, next) {
            let col = rng_draw(drawn.1, WALK_COLORS);
            (prev.0.push(Edge { start: prev.1, end: next, color: col.0 }), next, col.1)
        } else {
            (prev.0, next, drawn.1)
        }
    }
}

/// `edges` after `attempts` mask attempts from generator state `state`, with
/// the state after them. Each attempt draws two nodes and adds the pair when new.
pub open spec fn mask(edges: Seq<Edge>, state: u64, attempts: nat) -> (Seq<Edge>, u64)
    decreases attempts,
{
    if attempts == 0 {
        (edges, state)
    } else {
        let prev = mask(edges, state, (attempts - 1) as nat);
        let a = rng_draw(prev.1, NODE_COUNT);
        let b = rng_draw(a.1, NODE_COUNT);
        (add_if_new(prev.0, a.0, b.0, MASK_EDGE_COLOR), b.1)
    }
}

/// The edges of the walk phase.
pub open spec fn walk_edges(seed: u32, nonce: u32) -> Seq<Edge> {
    walk(seed, nonce, walk_len(seed)).0
}

/// The edges after the walk phase and the requested edges.
pub open spec fn requested_edges(seed: u32, free: Seq<EdgeInput>, nonce: u32) -> Seq<Edge> {
    add_requests(walk_edges(seed, nonce), free)
}

/// The full edge list for a seed, requests and a nonce.
pub open spec fn synthesized_edges(seed: u32, free: Seq<EdgeInput>, nonce: u32) -> Seq<Edge> {
    mask(requested_edges(seed, free, nonce), walk(seed, nonce, walk_len(seed)).2, mask_len(nonce)).0
}

/// Both endpoints name a node and differ.
pub open spec fn edge_in_range(e: Edge) -> bool {
    e.start < NODE_COUNT && e.end < NODE_COUNT && e.start != e.end
}

/// No undirected pair occurs twice in `s`.
pub open spec fn distinct_pairs(s: Seq<Edge>) -> bool {
    forall|i: int, j: int| 0 <= i < j < s.len() ==> !joins(#[trigger] s[j], (#[trigger] s[i]).start, s[i].end)
}

/// Every edge is in range and no pair repeats.
pub open spec fn valid_edges(s: Seq<Edge>) -> bool {
    &&& forall|i: int| 0 <= i < s.len() ==> edge_in_range(#[trigger] s[i])
    &&& distinct_pairs(s)
}

/// The first `n1` edges carry walk colours, those up to `n2` the requested-edge
/// colour, and the rest the mask colour.
pub open spec fn colors_by_phase(s: Seq<Edge>, n1: int, n2: int) -> bool {
    &&& 0 <= n1 <= n2 <= s.len()
    &&& forall|i: int| 0 <= i < n1 ==> (#[trigger] s[i]).color < WALK_COLORS
    &&& forall|i: int| n1 <= i < n2 ==> (#[trigger] s[i]).color == FREE_EDGE_COLOR
    &&& forall|i: int| n2 <= i < s.len() ==> (#[trigger] s[i]).color == MASK_EDGE_COLOR
}

/// Appending a new in-range edge keeps a list valid.
proof fn lemma_add_if_new_valid(s: Seq<Edge>, a: usize, b: usize, color: usize)
    requires
        valid_edges(s),
        a < NODE_COUNT,
        b < NODE_COUNT,
    ensures
        valid_edges(add_if_new(s, a, b, color)),
        add_if_new(s, a, b, color).len() <= s.len() + 1,
        s.is_prefix_of(add_if_new(s, a, b, color)),
{
    let t = add_if_new(s, a, b, color);
    if is_new_edge_spec(s, a, b) {
        assert forall|i: int, j: int| 0 <= i < j < t.len() implies !joins(
            #[trigger] t[j],
            (#[trigger] t[i]).start,
            t[i].end,
        ) by {
            if j == s.len() {
                if joins(t[j], t[i].start, t[i].end) {
                    assert(joins(s[i], a, b));
                }
            } else {
                assert(t[i] == s[i] && t[j] == s[j]);
            }
        }
        assert(s =~= t.subrange(0, s.len() as int));
    } else {
        assert(s =~= t.subrange(0, s.len() as int));
    }
}

/// Tells whether some edge of `edges` connects `a` and `b`.
pub fn contains_pair(edges: &Vec<Edge>, a: usize, b: usize) -> (r: bool)
    ensures
        r == has_pair(edges@, a, b),
{
    let mut i: usize = 0;
    while i < edges.len()
        invariant
            0 <= i <= edges.len(),
            forall|k: int| 0 <= k < i ==> !joins(#[trigger] edges@[k], a, b),
        decreases edges.len() - i,
    {
        let e = edges[i];
        if (e.start == a && e.end == b) || (e.start == b && e.end == a) {
            assert(joins(edges@[i as int], a, b));
            return true;
        }
        i += 1;
    }
    false
}

/// Tells whether the candidate `(a, b)` may join `edges`: no self-loop and a new pair.
pub fn is_new_edge(edges: &Vec<Edge>, a: usize, b: usize) -> (r: bool)
    ensures
        r == is_new_edge_spec(edges@, a, b),
{
    a != b && !contains_pair(edges, a, b)
}

/// Appends `(a, b, color)` when it is no self-loop and its pair is new; tells
/// whether it did.
pub fn add_edge_if_new(edges: &mut Vec<Edge>, a: usize, b: usize, color: usize) -> (added: bool)
    ensures
        final(edges)@ == add_if_new(old(edges)@, a, b, color),
        added == is_new_edge_spec(old(edges)@, a, b),
{
    if is_new_edge(edges, a, b) {
        edges.push(Edge { start: a, end: b, color });
        true
    } else {
        false
    }
}

/// Adds each request of `free`, in order, with the requested-edge colour when
/// both endpoints name a node, they differ and the pair is new; drops it otherwise.
pub fn add_free_edges(edges: &mut Vec<Edge>, free: &[EdgeInput])
    ensures
        final(edges)@ == add_requests(old(edges)@, free@),
{
    let ghost start = edges@;
    let mut j: usize = 0;
    while j < free.len()
        invariant
            0 <= j <= free@.len(),
            edges@ == add_requests(start, free@.subrange(0, j as int)),
        decreases free@.len() - j,
    {
        let r = free[j];
        if r.start < NODE_COUNT && r.end < NODE_COUNT {
            add_edge_if_new(edges, r.start, r.end, FREE_EDGE_COLOR);
        }
        assert(free@.subrange(0, j + 1).drop_last() =~= free@.subrange(0, j as int));
        j += 1;
    }
    assert(free@.subrange(0, free@.len() as int) =~= free@);
}

/// Requested edges keep a valid list valid, keep it as a prefix, and carry the
/// requested-edge colour.
proof fn lemma_add_requests(s: Seq<Edge>, reqs: Seq<EdgeInput>)
    requires
        valid_edges(s),
    ensures
        valid_edges(add_requests(s, reqs)),
        s.is_prefix_of(add_requests(s, reqs)),
        forall|i: int|
            s.len() <= i < add_requests(s, reqs).len() ==> (#[trigger] add_requests(s, reqs)[i]).color
                == FREE_EDGE_COLOR,
    decreases reqs.len(),
{
    if reqs.len() > 0 {
        let prev = add_requests(s, reqs.drop_last());
        lemma_add_requests(s, reqs.drop_last());
        let r = reqs.last();
        if request_in_range(r) {
            lemma_add_if_new_valid(prev, r.start, r.end, FREE_EDGE_COLOR);
            let t = add_requests(s, reqs);
            assert forall|i: int| s.len() <= i < t.len() implies (#[trigger] t[i]).color
                == FREE_EDGE_COLOR by {
                if i < prev.len() {
                    assert(t[i] == prev[i]);
                }
            }
        }
    }
}

/// The walk phase: its edges and the generator state after it.
fn walk_phase(id_seed: u32, mask_nonce: u32) -> (r: (Vec<Edge>, u64))
    ensures
        r.0@ == walk(id_seed, mask_nonce, walk_len(id_seed)).0,
        r.1 == walk(id_seed, mask_nonce, walk_len(id_seed)).2,
        valid_edges(r.0@),
        r.0@.len() <= walk_len(id_seed),
        forall|k: int| 0 <= k < r.0@.len() ==> (#[trigger] r.0@[k]).color < WALK_COLORS,
{
    let mut edges: Vec<Edge> = Vec::new();
    let mut state: u64 = seed_state(id_seed, mask_nonce);
    let mut current: usize = (id_seed % (NODE_COUNT as u32)) as usize;
    let walk_steps: u32 = 15 + id_seed % 5;
    let mut i: u32 = 0;
    while i < walk_steps
        invariant
            walk_steps == walk_len(id_seed),
            0 <= i <= walk_steps,
            current < NODE_COUNT,
            walk(id_seed, mask_nonce, i as nat) == (edges@, current, state),
            valid_edges(edges@),
            edges@.len() <= i,
            forall|k: int| 0 <= k < edges@.len() ==> (#[trigger] edges@[k]).color < WALK_COLORS,
        decreases walk_steps - i,
    {
        let ghost before = edges@;
        let (next, after_next) = draw_below(state, NODE_COUNT);
        if is_new_edge(&edges, current, next) {
            let (color, after_color) = draw_below(after_next, WALK_COLORS);
            proof {
                lemma_add_if_new_valid(before, current, next, color);
            }
            edges.push(Edge { start: current, end: next, color });
            state = after_color;
        } else {
            state = after_next;
        }
        current = next;
        i += 1;
    }
    (edges, state)
}

/// Makes `attempts` mask attempts from generator state `state`: each draws two
/// nodes and adds them with the mask colour when they differ and their pair
/// is new. Returns the generator state after the attempts.
pub fn add_mask_edges(edges: &mut Vec<Edge>, state: u64, attempts: u32) -> (r: u64)
    requires
        valid_edges(old(edges)@),
    ensures
        (final(edges)@, r) == mask(old(edges)@, state, attempts as nat),
        valid_edges(final(edges)@),
        old(edges)@.is_prefix_of(final(edges)@),
        final(edges)@.len() - old(edges)@.len() <= attempts,
        forall|m: int|
            old(edges)@.len() <= m < final(edges)@.len() ==> (#[trigger] final(edges)@[m]).color
                == MASK_EDGE_COLOR,
{
    let ghost start = edges@;
    let mut current_state = state;
    let mut k: u32 = 0;
    while k < attempts
        invariant
            0 <= k <= attempts,
            mask(start, state, k as nat) == (edges@, current_state),
            valid_edges(edges@),
            start.is_prefix_of(edges@),
            edges@.len() - start.len() <= k,
            forall|m: int|
                start.len() <= m < edges@.len() ==> (#[trigger] edges@[m]).color == MASK_EDGE_COLOR,
        decreases attempts - k,
    {
        let ghost before = edges@;
        let (a, after_a) = draw_below(current_state, NODE_COUNT);
        let (b, after_b) = draw_below(after_a, NODE_COUNT);
        proof {
            lemma_add_if_new_valid(before, a, b, MASK_EDGE_COLOR);
        }
        add_edge_if_new(edges, a, b, MASK_EDGE_COLOR);
        current_state = after_b;
        proof {
            assert forall|m: int| start.len() <= m < edges@.len() implies (#[trigger] edges@[m]).color
                == MASK_EDGE_COLOR by {
                if m < before.len() {
                    assert(edges@[m] == before[m]);
                }
            }
        }
        k += 1;
    }
    current_state
}

/// The edge list for `seed`, the requests `free` and `nonce`: up to
/// `15 + seed % 5` walk edges from node `seed % 32`, then the accepted
/// requests, then up to `3 + nonce % 3` mask edges, all drawn from one
/// generator seeded with `seed` in the high and `nonce` in the low 32 bits.
pub fn generate_edges(id_seed: u32, free_edges: &[EdgeInput], mask_nonce: u32) -> (r: Vec<Edge>)
    ensures
        r@ == synthesized_edges(id_seed, free_edges@, mask_nonce),
        valid_edges(r@),
        colors_by_phase(
            r@,
            walk_edges(id_seed, mask_nonce).len() as int,
            requested_edges(id_seed, free_edges@, mask_nonce).len() as int,
        ),
        walk_edges(id_seed, mask_nonce).len() <= walk_len(id_seed),
        r@.len() - requested_edges(id_seed, free_edges@, mask_nonce).len() <= mask_len(mask_nonce),
{
    let (mut edges, state) = walk_phase(id_seed, mask_nonce);
    let ghost walked = edges@;

    add_free_edges(&mut edges, free_edges);
    let ghost requested = edges@;
    proof {
        lemma_add_requests(walked, free_edges@);
        assert forall|m: int| 0 <= m < walked.len() implies (#[trigger] requested[m]).color
            < WALK_COLORS by {
            assert(requested[m] == walked[m]);
        }
    }

    add_mask_edges(&mut edges, state, 3 + mask_nonce % 3);
    proof {
        assert forall|m: int| 0 <= m < requested.len() implies #[trigger] edges@[m]
            == requested[m] by {}
    }
    edges
}

} // verus!
