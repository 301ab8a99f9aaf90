//! Session and entity synchronization for a remote visual-debugging viewer.
//!
//! A producing process sends debug entities (currently axis-aligned bounding
//! boxes) over a connection-oriented transport; the viewer assigns each entity
//! a stable identity, stores it in the session belonging to its connection,
//! and, once per render tick, computes the minimal spawn/despawn instructions
//! needed to keep the rendered view in step with the currently selected
//! session. Rendering itself, windowing and the network transport are external
//! collaborators: this crate only decides, and hands the decisions out as
//! plain values.

use vstd::prelude::*;

pub mod codec;
pub mod entity;
pub mod registry;
pub mod session;
pub mod table;
pub mod view;

verus! {

/// Hook for one-time client-side initialization. The protocol needs none, so
/// this does nothing; it exists so that callers have a stable entry point.
pub fn init()
{
}

} // verus!
