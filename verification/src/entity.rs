//! The debug-entity model: what a producer sends and the viewer stores.
//!
//! Geometry components travel as the bit patterns of 32-bit floating-point
//! numbers. The core never computes with coordinates — malformed boxes (a
//! minimum corner beyond the maximum) are deliberately passed through — so it
//! stores each component as the raw `u32` pattern and leaves arithmetic to
//! the producer and the render collaborator.

use vstd::prelude::*;

verus! {

/// One point of three components, each the bit pattern of a 32-bit float.
#[derive(Clone, Copy, PartialEq, Eq, Debug)]
pub struct Vec3Bits {
    pub x: u32,
    pub y: u32,
    pub z: u32,
}

/// The closed set of entity kinds, with the kind-specific payload.
/// Adding a kind is a new variant plus new match arms; every match over this
/// type is exhaustive.
#[derive(Clone, Copy, PartialEq, Eq, Debug)]
pub enum ParryDebugEntityType {
    /// An axis-aligned bounding box: minimum and maximum corner.
    Aabb { mins: Vec3Bits, maxs: Vec3Bits },
}

/// A debug entity as stored by the viewer.
///
/// `id` is absent until the registry assigns one; `visual_handle` is the
/// opaque token of the on-screen object that currently represents this
/// entity, absent until the render collaborator reports a spawn. Neither
/// field is meaningful to the producer and the handle is never sent on the
/// wire.
#[derive(Clone, Copy, PartialEq, Eq, Debug)]
pub struct DebugEntity {
    pub id: Option<u64>,
    pub entity_type: ParryDebugEntityType,
    pub visual_handle: Option<u64>,
}

impl DebugEntity {
    /// A fresh bounding-box entity, as a producer builds it: no identity,
    /// no visual handle.
    pub fn new_aabb_entity(mins: Vec3Bits, maxs: Vec3Bits) -> (r: DebugEntity)
        ensures
            r == (DebugEntity {
                id: None,
                entity_type: ParryDebugEntityType::Aabb { mins, maxs },
                visual_handle: None,
            }),
    {
        DebugEntity { id: None, entity_type: ParryDebugEntityType::Aabb { mins, maxs }, visual_handle: None }
    }

    /// The entity with the given visual handle recorded on it.
    pub open spec fn with_handle_spec(self, handle: u64) -> DebugEntity {
        DebugEntity { visual_handle: Some(handle), ..self }
    }

    /// The same entity with the given visual handle recorded on it.
    pub fn with_visual_handle(self, handle: u64) -> (r: DebugEntity)
        ensures
            r == self.with_handle_spec(handle),
    {
        DebugEntity { visual_handle: Some(handle), ..self }
    }
}

} // verus!
