//! Deterministic pentagonal glyph synthesis and a thin Ed25519 identity layer.
//!
//! A glyph is a fixed skeleton of 32 nodes whose edges come from a seed, a
//! nonce and the connections a caller asks for; the same inputs always give
//! the same glyph. Rendering to markup and the host bindings live outside
//! this library.

pub mod edges;
pub mod identity;
pub mod layout;
pub mod pattern;
pub mod rng;

pub use edges::{add_edge_if_new, add_free_edges, add_mask_edges, contains_pair, generate_edges, is_new_edge, Edge, EdgeInput, NODE_COUNT};
pub use identity::{generate_keypair, public_from_private, sign_payload, KeyError, KeyPair};
pub use layout::{generate_nodes, NodeSite};
pub use pattern::{generate_pattern, palette_color, Pattern};
pub use rng::seed_state;
