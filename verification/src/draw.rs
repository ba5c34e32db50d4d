//! Capability for rendering objects.

use vstd::prelude::*;

verus! {

/// Defines how an object is rendered.
///
/// `D` is the drawing context the host render loop hands out once per
/// frame; drawing has no return value and no failure mode.
pub trait Draw<D> {
    /// How the engine will draw the object.
    fn draw(&self, d: &mut D);
}

} // verus!
