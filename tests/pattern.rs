use pentasign::{
    add_edge_if_new, add_free_edges, add_mask_edges, contains_pair, generate_edges, generate_nodes, generate_pattern,
    is_new_edge, palette_color, seed_state, Edge, EdgeInput, NodeSite, NODE_COUNT,
};

fn triples(edges: &[Edge]) -> Vec<(usize, usize, usize)> {
    edges.iter().map(|e| (e.start, e.end, e.color)).collect()
}

fn same_pair(a: &Edge, b: &Edge) -> bool {
    (a.start == b.start && a.end == b.end) || (a.start == b.end && a.end == b.start)
}

fn assert_invariants(edges: &[Edge], seed: u32, nonce: u32) {
    for (i, e) in edges.iter().enumerate() {
        assert!(e.start < NODE_COUNT && e.end < NODE_COUNT);
        assert_ne!(e.start, e.end);
        assert!(e.color <= 4);
        for f in &edges[i + 1..] {
            assert!(!same_pair(e, f));
        }
    }
    let walk = edges.iter().take_while(|e| e.color < 3).count();
    let free = edges[walk..].iter().take_while(|e| e.color == 3).count();
    assert!(edges[walk + free..].iter().all(|e| e.color == 4));
    assert!(walk <= 15 + (seed % 5) as usize);
    assert!(edges.len() - walk - free <= 3 + (nonce % 3) as usize);
}

#[test]
fn seed_zero_nonce_zero_edges() {
    let p = generate_pattern(0, &[], 0);
    let expected = vec![
        (0, 17, 0), (17, 18, 0), (18, 12, 2), (12, 4, 1), (4, 14, 0), (14, 23, 0),
        (23, 19, 0), (19, 13, 2), (13, 4, 0), (4, 27, 0), (27, 2, 0), (2, 0, 0),
        (0, 30, 2), (30, 7, 0), (7, 14, 2), (19, 8, 4), (3, 10, 4), (6, 13, 4),
    ];
    assert_eq!(triples(&p.edges), expected);
    assert_eq!(p.edges[0].start, 0);
    assert_invariants(&p.edges, 0, 0);
}

#[test]
fn self_loop_request_is_dropped() {
    let free = [EdgeInput { start: 1, end: 1 }];
    let p = generate_pattern(7, &free, 2);
    assert!(p.edges.iter().all(|e| !(e.start == 1 && e.end == 1)));
    assert!(p.edges.iter().all(|e| e.color != 3));
    let expected = vec![
        (7, 13, 0), (13, 8, 0), (8, 16, 2), (16, 22, 2), (22, 0, 1), (0, 1, 2),
        (1, 12, 2), (1, 16, 1), (1, 28, 2), (28, 17, 0), (17, 31, 0), (31, 8, 2),
        (8, 2, 2), (2, 30, 0), (30, 12, 1), (29, 22, 4), (30, 1, 4), (5, 24, 4),
        (18, 2, 4), (31, 21, 4),
    ];
    assert_eq!(triples(&p.edges), expected);
    assert_invariants(&p.edges, 7, 2);
}

#[test]
fn requests_are_filtered_and_coloured() {
    let free = [
        EdgeInput { start: 1, end: 2 },
        EdgeInput { start: 2, end: 1 },
        EdgeInput { start: 40, end: 3 },
        EdgeInput { start: 5, end: 5 },
        EdgeInput { start: 3, end: 4 },
    ];
    let edges = generate_edges(12345, &free, 9);
    let expected = vec![
        (25, 0, 2), (0, 31, 1), (31, 1, 0), (1, 25, 2), (25, 24, 1), (24, 27, 0),
        (27, 25, 0), (25, 3, 2), (3, 28, 0), (28, 12, 2), (12, 29, 0), (29, 1, 0),
        (1, 15, 2), (15, 17, 1), (1, 2, 3), (3, 4, 3), (7, 25, 4), (10, 31, 4),
        (6, 28, 4),
    ];
    assert_eq!(triples(&edges), expected);
    assert!(edges.iter().all(|e| e.start != 40 && e.end != 40 && e.start != e.end));
    assert_invariants(&edges, 12345, 9);
}

#[test]
fn generation_is_deterministic() {
    let free = [EdgeInput { start: 3, end: 9 }, EdgeInput { start: 0, end: 31 }];
    for (seed, nonce) in [(0u32, 0u32), (7, 2), (u32::MAX, u32::MAX), (99, 4)] {
        let a = generate_pattern(seed, &free, nonce);
        let b = generate_pattern(seed, &free, nonce);
        assert_eq!(a.edges, b.edges);
        assert_eq!(a.nodes, b.nodes);
        assert_invariants(&a.edges, seed, nonce);
    }
}

#[test]
fn nonce_changes_the_stream() {
    let a = generate_edges(5, &[], 0);
    let b = generate_edges(5, &[], 1);
    assert_ne!(a, b);
}

#[test]
fn invariants_hold_over_many_inputs() {
    let free = [
        EdgeInput { start: 0, end: 1 },
        EdgeInput { start: 31, end: 32 },
        EdgeInput { start: 6, end: 6 },
        EdgeInput { start: 10, end: 20 },
        EdgeInput { start: 20, end: 10 },
    ];
    for seed in 0..40u32 {
        for nonce in 0..6u32 {
            let edges = generate_edges(seed.wrapping_mul(2654435761), &free, nonce);
            assert_invariants(&edges, seed.wrapping_mul(2654435761), nonce);
        }
    }
}

#[test]
fn node_layout_is_fixed() {
    let nodes = generate_nodes();
    assert_eq!(nodes.len(), 32);
    assert_eq!(nodes[0], NodeSite::Side { side: 0, step: 1 });
    assert_eq!(nodes[3], NodeSite::Side { side: 0, step: 4 });
    assert_eq!(nodes[4], NodeSite::Side { side: 1, step: 1 });
    assert_eq!(nodes[19], NodeSite::Side { side: 4, step: 4 });
    assert_eq!(nodes[20], NodeSite::Ring { ring: 1, spoke: 0 });
    assert_eq!(nodes[27], NodeSite::Ring { ring: 2, spoke: 3 });
    assert_eq!(nodes[31], NodeSite::Ring { ring: 3, spoke: 3 });
    let a = generate_pattern(1, &[], 1);
    let b = generate_pattern(2_000_000, &[EdgeInput { start: 4, end: 5 }], 77);
    assert_eq!(a.nodes, nodes);
    assert_eq!(b.nodes, nodes);
}

#[test]
fn seed_state_packs_seed_high() {
    assert_eq!(seed_state(0, 0), 0);
    assert_eq!(seed_state(1, 2), (1u64 << 32) | 2);
    assert_eq!(seed_state(u32::MAX, u32::MAX), u64::MAX);
}

#[test]
fn pair_lookup_is_undirected() {
    let edges = vec![Edge { start: 2, end: 5, color: 0 }];
    assert!(contains_pair(&edges, 2, 5));
    assert!(contains_pair(&edges, 5, 2));
    assert!(!contains_pair(&edges, 2, 6));
    assert!(!contains_pair(&Vec::new(), 0, 1));
    assert!(!is_new_edge(&edges, 5, 2));
    assert!(!is_new_edge(&edges, 3, 3));
    assert!(is_new_edge(&edges, 3, 4));
}

#[test]
fn add_edge_rejects_duplicates_and_loops() {
    let mut edges = Vec::new();
    assert!(add_edge_if_new(&mut edges, 1, 2, 4));
    assert!(!add_edge_if_new(&mut edges, 2, 1, 0));
    assert!(!add_edge_if_new(&mut edges, 7, 7, 0));
    assert_eq!(edges, vec![Edge { start: 1, end: 2, color: 4 }]);
}

#[test]
fn free_edges_phase_alone() {
    let mut edges = vec![Edge { start: 0, end: 1, color: 2 }];
    let free = [
        EdgeInput { start: 1, end: 0 },
        EdgeInput { start: 32, end: 0 },
        EdgeInput { start: 0, end: 32 },
        EdgeInput { start: 9, end: 9 },
        EdgeInput { start: 31, end: 0 },
        EdgeInput { start: 0, end: 31 },
    ];
    add_free_edges(&mut edges, &free);
    assert_eq!(
        edges,
        vec![Edge { start: 0, end: 1, color: 2 }, Edge { start: 31, end: 0, color: 3 }]
    );
}

#[test]
fn palette_lookup_wraps() {
    assert_eq!(palette_color(0), "#C69572");
    assert_eq!(palette_color(1), "#94B4C6");
    assert_eq!(palette_color(2), "#4A6C82");
    assert_eq!(palette_color(3), "#F2F4F6");
    assert_eq!(palette_color(4), "#888888");
    assert_eq!(palette_color(7), "#4A6C82");
}

#[test]
fn mask_phase_from_known_state() {
    let mut edges = vec![Edge { start: 0, end: 1, color: 2 }];
    let state = add_mask_edges(&mut edges, 42, 4);
    assert_eq!(triples(&edges), vec![(0, 1, 2), (14, 10, 4), (23, 14, 4), (11, 10, 4), (20, 0, 4)]);
    assert_eq!(state, 7614582451446465874);
    let mut none = vec![Edge { start: 0, end: 1, color: 2 }];
    assert_eq!(add_mask_edges(&mut none, 42, 0), 42);
    assert_eq!(none.len(), 1);
}
