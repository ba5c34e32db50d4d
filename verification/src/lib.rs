//! Core of a small game framework.
//!
//! Two independent pieces live here:
//!
//! * an asset-loading system: a loader capability that binds a source
//!   key, an item type, an error type and a failure policy, together
//!   with a registry that deduplicates loads by source key
//!   ([`asset`]);
//! * a symmetric collision-predicate capability over integer geometry
//!   ([`collide`]).
//!
//! Window creation, the render loop and drawing itself are the host
//! application's business; the library only offers the [`draw::Draw`]
//! capability as the interface a renderable object implements.

pub mod asset;
pub mod collide;
pub mod draw;
