//! The descriptor of one attribute of a vertex record.

use vstd::prelude::*;
use crate::gl_types::{VertexAttributeType, COMPONENT_BYTES};

verus! {

/// Where one attribute of a vertex record lies in memory, as the driver is
/// told: which attribute slot it feeds, how many components it has, what they
/// stand for, whether they are to be normalised, how many bytes lie between
/// two records, and at which byte of a record it begins.
#[derive(Clone, Copy, Debug, PartialEq, Eq, Structural)]
pub struct VertexAttribute {
    /// The attribute slot that is fed.
    pub index: u32,
    /// The number of components.
    pub size: i32,
    /// What the components stand for.
    pub attribute_type: VertexAttributeType,
    /// Whether the driver is to normalise the components.
    pub normalized: bool,
    /// Bytes from the start of one record to the start of the next.
    pub stride: usize,
    /// The byte of a record at which the attribute begins.
    pub offset: usize,
}

impl VertexAttribute {
    /// Bytes that the components of this attribute take.
    pub open spec fn byte_len(self) -> int {
        self.size * COMPONENT_BYTES
    }

    /// The first byte of a record behind this attribute.
    pub open spec fn end(self) -> int {
        self.offset + self.byte_len()
    }

    /// The attribute has a component, and all its components lie inside one
    /// record of `stride` bytes.
    pub open spec fn within_stride(self) -> bool {
        &&& 1 <= self.size
        &&& self.end() <= self.stride
    }

    /// A descriptor with exactly the given fields. Nothing is checked: a
    /// descriptor is a plain record, and whether it suits a layout is a
    /// question for the layout.
    pub fn new(
        index: u32,
        size: i32,
        attribute_type: VertexAttributeType,
        normalized: bool,
        stride: usize,
        offset: usize,
    ) -> (attribute: VertexAttribute)
        ensures
            attribute == (VertexAttribute { index, size, attribute_type, normalized, stride, offset }),
    {
        VertexAttribute { index, size, attribute_type, normalized, stride, offset }
    }
}

} // verus!
