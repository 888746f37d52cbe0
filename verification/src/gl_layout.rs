//! What holds of the attributes of one vertex record taken together.

use vstd::prelude::*;
use crate::gl_vertex_attribute::VertexAttribute;

verus! {

/// Bytes that the components of the first `n` attributes take together.
pub open spec fn bytes_before(attributes: Seq<VertexAttribute>, n: int) -> int
    decreases n,
{
    if n <= 0 {
        0
    } else {
        bytes_before(attributes, n - 1) + attributes[n - 1].byte_len()
    }
}

/// No attribute shares a byte of the record with a later one: each ends
/// where, or before, the next begins.
pub open spec fn offsets_ascending(attributes: Seq<VertexAttribute>) -> bool {
    forall|i: int, j: int|
        #![trigger attributes[i], attributes[j]]
        0 <= i < j < attributes.len() ==> attributes[i].end() <= attributes[j].offset
}

/// Each attribute is told the size of the record as its stride, and no two
/// attributes share a byte.
pub open spec fn ordered_layout(attributes: Seq<VertexAttribute>, size: nat) -> bool {
    &&& forall|i: int| 0 <= i < attributes.len() ==> (#[trigger] attributes[i]).stride == size
    &&& offsets_ascending(attributes)
}

/// The attributes fill a record of `size` bytes with no gap. Each is told
/// `size` as its stride; the first begins at byte zero and each of the others
/// where the one before it ends; and the components of all of them together
/// take `size` bytes, so that they add up to the stride.
pub open spec fn tightly_packed(attributes: Seq<VertexAttribute>, size: nat) -> bool {
    &&& forall|i: int|
        0 <= i < attributes.len() ==> {
            &&& (#[trigger] attributes[i]).stride == size
            &&& attributes[i].offset == bytes_before(attributes, i)
        }
    &&& bytes_before(attributes, attributes.len() as int) == size
}

/// What a layout has to be. It is an ordered one; each of its attributes has
/// a component and lies inside the record; and unless the record carries no
/// attribute at all, the layout is a packed one, so that the bytes of its
/// components add up to the stride.
pub open spec fn well_formed_layout(attributes: Seq<VertexAttribute>, size: nat) -> bool {
    &&& ordered_layout(attributes, size)
    &&& forall|i: int| 0 <= i < attributes.len() ==> (#[trigger] attributes[i]).within_stride()
    &&& attributes.len() > 0 ==> tightly_packed(attributes, size)
}

/// The components of the attributes before a given one take no more bytes
/// than those before a later one, as long as no attribute has a negative
/// number of components.
proof fn lemma_bytes_before_grows(attributes: Seq<VertexAttribute>, m: int, n: int)
    requires
        0 <= m <= n <= attributes.len(),
        forall|i: int| 0 <= i < attributes.len() ==> (#[trigger] attributes[i]).size >= 0,
    ensures
        bytes_before(attributes, m) <= bytes_before(attributes, n),
    decreases n - m,
{
    if m < n {
        lemma_bytes_before_grows(attributes, m, n - 1);
    }
}

/// A packed layout in which every attribute has a component is a well-formed
/// one: its attributes keep apart, and each of them lies inside the record.
pub proof fn lemma_packed_layout_is_well_formed(attributes: Seq<VertexAttribute>, size: nat)
    requires
        tightly_packed(attributes, size),
        forall|i: int| 0 <= i < attributes.len() ==> (#[trigger] attributes[i]).size >= 1,
    ensures
        well_formed_layout(attributes, size),
{
    assert forall|i: int| 0 <= i < attributes.len() implies (#[trigger] attributes[i]).end()
        <= size by {
        lemma_bytes_before_grows(attributes, i + 1, attributes.len() as int);
    }
    assert forall|i: int, j: int|
        #![trigger attributes[i], attributes[j]]
        0 <= i < j < attributes.len() implies attributes[i].end() <= attributes[j].offset by {
        lemma_bytes_before_grows(attributes, i + 1, j);
    }
}

} // verus!
