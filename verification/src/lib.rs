//! A verified retained-mode scene graph: a tree of nodes, each carrying a
//! local transform (position, Euler-like rotation, pivot point) and an
//! optional drawable handle.  The library composes the per-node model
//! matrices, walks the tree depth-first, and hands back the draw calls in
//! the exact order a renderer must issue them.
//!
//! Matrix and vector values are `nalgebra-glm` types, opaque to the
//! verifier; all matrix algebra goes through the small trusted surface in
//! [`linalg`].  Everything else — the arena of nodes, child attachment,
//! transform composition and the traversal — is verified.

pub mod compose;
pub mod graph;
pub mod helicopter;
pub mod laws;
pub mod linalg;
pub mod traversal;
