//! Structural core of a feed-forward neural-network engine: layer
//! descriptors and their shapes, model assembly, elementwise masks for
//! dropout and rectifiers, per-layer context slots, k-fold partitioning and
//! the decisions of the persisted model layout.
pub mod context;
pub mod kfold;
pub mod layers;
pub mod loss;
pub mod mask;
pub mod model;
pub mod persist;
pub mod shape;
