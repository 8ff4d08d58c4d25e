//! Mesh simplification by iterative vertex-pair contraction, driven by
//! quadric error minimization.
//!
//! This crate verifies the structural core of the algorithm: the vertex,
//! face and pair stores with their mutual bookkeeping, the candidate
//! priority queue with lazy invalidation and lazy refresh, the contraction
//! cascade, and the final index compaction.
//!
//! Floating-point quantities (coordinates, quadrics, costs) travel through
//! the core as opaque 64-bit patterns. Every numeric evaluation — plane
//! quadrics, quadric sums, the optimal contraction point, costs and
//! distances — is performed by the caller and handed in as plain values;
//! the core orders costs through a monotone integer key and is verified
//! for every value the caller may supply.

pub mod face;
pub mod geom;
pub mod heap;
pub mod mesh;
pub mod pair;
pub mod vertex;
