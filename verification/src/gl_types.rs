//! Plain values shared by the wrappers and the vertex layouts.

use vstd::prelude::*;

verus! {

/// Width in bytes of one attribute component: every component is a
/// single-precision number.
pub const COMPONENT_BYTES: usize = 4;

/// What the components of a vertex attribute stand for.
#[derive(Clone, Copy, Debug, PartialEq, Eq, Structural)]
pub enum VertexAttributeType {
    /// A point in space.
    Position,
    /// A colour.
    Color,
    /// A texture coordinate.
    TexCoord,
}

} // verus!
