//! Deterministic state-transition core of a blockchain node.
//!
//! The crate composes independent state-transition modules into one dispatch
//! surface, executes blocks under strict weight and length budgets, validates
//! signed extrinsics through an ordered chain of checks, and exposes the
//! consensus parameters (epoch configuration, authority sets, randomness)
//! committed in a state snapshot.

pub mod block;
pub mod codec;
pub mod config;
pub mod consensus;
pub mod dispatch;
pub mod executive;
pub mod extrinsic;
pub mod registry;
pub mod session;
pub mod state;
pub mod validity;
pub mod weights;
