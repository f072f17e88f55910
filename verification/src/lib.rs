//! Verified scene logic for a textured globe viewer.
//!
//! The library models the decision-making parts of the viewer over plain
//! values: which entities a scene variant contains, how a deferred texture
//! is fixed up exactly once after it finishes loading, how a per-frame
//! rotation accumulates, and how geodetic angles normalize. The host
//! rendering engine performs the actual asset loading, mesh building and
//! drawing; a thin driver translates the values produced here into engine
//! calls.

pub mod fixup;
pub mod geo;
pub mod rotation;
pub mod scene;
