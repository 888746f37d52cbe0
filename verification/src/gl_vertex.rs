//! Vertex layouts and the vertex array object.

use vstd::prelude::*;
use crate::gl_driver::{lemma_reported_is_injective, reported, DriverCall, GlError};
use crate::gl_traits::{Bindable, Deletable};
use crate::gl_layout::{bytes_before, tightly_packed, well_formed_layout};
use crate::gl_types::{VertexAttributeType, COMPONENT_BYTES};
use crate::gl_vertex_attribute::VertexAttribute;

verus! {

/// A type of vertex record, which knows its size in bytes and the attributes
/// that a record is made of.
pub trait Vertex {
    /// Bytes from the start of one record to the start of the next.
    spec fn byte_size() -> nat;

    /// The attributes of a record, in the order of their slots.
    spec fn layout() -> Seq<VertexAttribute>;

    /// The layout is a well-formed one: whoever adds a type of vertex shows
    /// that its attributes agree on the stride, keep apart, lie inside the
    /// record and, if there is any, fill it.
    proof fn layout_is_well_formed()
        ensures
            well_formed_layout(Self::layout(), Self::byte_size()),
    ;

    /// The size of one record in bytes.
    fn size() -> (bytes: usize)
        ensures
            bytes == Self::byte_size(),
    ;

    /// The descriptors of the attributes of a record, in the order of their
    /// slots.
    fn attributes() -> (attributes: Vec<VertexAttribute>)
        ensures
            attributes@ == Self::layout(),
    ;
}

/// An index into a vertex buffer: four bytes that carry no attribute.
impl Vertex for u32 {
    open spec fn byte_size() -> nat {
        4
    }

    open spec fn layout() -> Seq<VertexAttribute> {
        Seq::empty()
    }

    proof fn layout_is_well_formed() {
    }

    fn size() -> (bytes: usize) {
        broadcast use vstd::layout::layout_of_primitives;

        core::mem::size_of::<u32>()
    }

    fn attributes() -> (attributes: Vec<VertexAttribute>) {
        Vec::new()
    }
}

/// Two components: a texture coordinate.
///
/// Every component is kept as the thirty-two bits of a single-precision
/// number.
#[derive(Clone, Copy, Debug, PartialEq, Eq, Structural)]
pub struct Vector2 {
    pub x: u32,
    pub y: u32,
}

impl Vertex for Vector2 {
    open spec fn byte_size() -> nat {
        8
    }

    open spec fn layout() -> Seq<VertexAttribute> {
        seq![
            VertexAttribute {
                index: 0,
                size: 2,
                attribute_type: VertexAttributeType::TexCoord,
                normalized: false,
                stride: 8,
                offset: 0,
            },
        ]
    }

    proof fn layout_is_well_formed() {
        reveal_with_fuel(bytes_before, 4);
    }

    fn size() -> (bytes: usize) {
        2 * COMPONENT_BYTES
    }

    fn attributes() -> (attributes: Vec<VertexAttribute>) {
        vec![VertexAttribute::new(0, 2, VertexAttributeType::TexCoord, false, Self::size(), 0)]
    }
}

/// Three components: a position.
///
/// Every component is kept as the thirty-two bits of a single-precision
/// number.
#[derive(Clone, Copy, Debug, PartialEq, Eq, Structural)]
pub struct Vector3 {
    pub x: u32,
    pub y: u32,
    pub z: u32,
}

impl Vertex for Vector3 {
    open spec fn byte_size() -> nat {
        12
    }

    open spec fn layout() -> Seq<VertexAttribute> {
        seq![
            VertexAttribute {
                index: 0,
                size: 3,
                attribute_type: VertexAttributeType::Position,
                normalized: false,
                stride: 12,
                offset: 0,
            },
        ]
    }

    proof fn layout_is_well_formed() {
        reveal_with_fuel(bytes_before, 4);
    }

    fn size() -> (bytes: usize) {
        3 * COMPONENT_BYTES
    }

    fn attributes() -> (attributes: Vec<VertexAttribute>) {
        vec![VertexAttribute::new(0, 3, VertexAttributeType::Position, false, Self::size(), 0)]
    }
}

/// Four components: a colour.
///
/// Every component is kept as the thirty-two bits of a single-precision
/// number.
#[derive(Clone, Copy, Debug, PartialEq, Eq, Structural)]
pub struct Vector4 {
    pub x: u32,
    pub y: u32,
    pub z: u32,
    pub w: u32,
}

impl Vertex for Vector4 {
    open spec fn byte_size() -> nat {
        16
    }

    open spec fn layout() -> Seq<VertexAttribute> {
        seq![
            VertexAttribute {
                index: 0,
                size: 4,
                attribute_type: VertexAttributeType::Color,
                normalized: false,
                stride: 16,
                offset: 0,
            },
        ]
    }

    proof fn layout_is_well_formed() {
        reveal_with_fuel(bytes_before, 4);
    }

    fn size() -> (bytes: usize) {
        4 * COMPONENT_BYTES
    }

    fn attributes() -> (attributes: Vec<VertexAttribute>) {
        vec![VertexAttribute::new(0, 4, VertexAttributeType::Color, false, Self::size(), 0)]
    }
}

/// A position and a colour of three components each.
///
/// Every component is kept as the thirty-two bits of a single-precision
/// number.
#[derive(Clone, Copy, Debug)]
pub struct RgbVertex {
    /// x, y, z
    pub position: [u32; 3],
    /// r, g, b
    pub color: [u32; 3],
}

impl Vertex for RgbVertex {
    open spec fn byte_size() -> nat {
        24
    }

    open spec fn layout() -> Seq<VertexAttribute> {
        seq![
            VertexAttribute {
                index: 0,
                size: 3,
                attribute_type: VertexAttributeType::Position,
                normalized: false,
                stride: 24,
                offset: 0,
            },
            VertexAttribute {
                index: 1,
                size: 3,
                attribute_type: VertexAttributeType::Color,
                normalized: false,
                stride: 24,
                offset: 12,
            },
        ]
    }

    proof fn layout_is_well_formed() {
        reveal_with_fuel(bytes_before, 4);
    }

    fn size() -> (bytes: usize) {
        6 * COMPONENT_BYTES
    }

    fn attributes() -> (attributes: Vec<VertexAttribute>) {
        let position_attr = VertexAttribute {
            index: 0,
            size: 3,
            attribute_type: VertexAttributeType::Position,
            normalized: false,
            stride: Self::size(),
            offset: 0,
        };
        let color_attr = VertexAttribute {
            index: 1,
            size: 3,
            attribute_type: VertexAttributeType::Color,
            normalized: false,
            stride: Self::size(),
            offset: 3 * COMPONENT_BYTES,
        };
        vec![position_attr, color_attr]
    }
}

/// A position of three components, a colour of four and a texture coordinate
/// of two.
///
/// Every component is kept as the thirty-two bits of a single-precision
/// number.
#[derive(Clone, Copy, Debug)]
pub struct TexturedVertex {
    /// x, y, z
    pub position: [u32; 3],
    /// r, g, b, a
    pub color: [u32; 4],
    /// u, v
    pub tex_coords: [u32; 2],
}

impl Vertex for TexturedVertex {
    open spec fn byte_size() -> nat {
        36
    }

    open spec fn layout() -> Seq<VertexAttribute> {
        seq![
            VertexAttribute {
                index: 0,
                size: 3,
                attribute_type: VertexAttributeType::Position,
                normalized: false,
                stride: 36,
                offset: 0,
            },
            VertexAttribute {
                index: 1,
                size: 4,
                attribute_type: VertexAttributeType::Color,
                normalized: false,
                stride: 36,
                offset: 12,
            },
            VertexAttribute {
                index: 2,
                size: 2,
                attribute_type: VertexAttributeType::TexCoord,
                normalized: false,
                stride: 36,
                offset: 28,
            },
        ]
    }

    proof fn layout_is_well_formed() {
        reveal_with_fuel(bytes_before, 4);
    }

    fn size() -> (bytes: usize) {
        9 * COMPONENT_BYTES
    }

    fn attributes() -> (attributes: Vec<VertexAttribute>) {
        let stride = Self::size();
        let color_offset = 3 * COMPONENT_BYTES;
        let tex_coords_offset = 7 * COMPONENT_BYTES;
        vec![
            VertexAttribute::new(0, 3, VertexAttributeType::Position, false, stride, 0),
            VertexAttribute::new(1, 4, VertexAttributeType::Color, false, stride, color_offset),
            VertexAttribute::new(
                2,
                2,
                VertexAttributeType::TexCoord,
                false,
                stride,
                tex_coords_offset,
            ),
        ]
    }
}

/// Every layout that has an attribute is a packed one: the attributes of
/// `Vector2`, `Vector3`, `Vector4`, `RgbVertex` and `TexturedVertex` follow
/// each other without a gap, and the bytes of their components add up to the
/// stride, which is the size of the record.
pub proof fn lemma_packed_layouts()
    ensures
        tightly_packed(Vector2::layout(), Vector2::byte_size()),
        tightly_packed(Vector3::layout(), Vector3::byte_size()),
        tightly_packed(Vector4::layout(), Vector4::byte_size()),
        tightly_packed(RgbVertex::layout(), RgbVertex::byte_size()),
        tightly_packed(TexturedVertex::layout(), TexturedVertex::byte_size()),
{
    Vector2::layout_is_well_formed();
    Vector3::layout_is_well_formed();
    Vector4::layout_is_well_formed();
    RgbVertex::layout_is_well_formed();
    TexturedVertex::layout_is_well_formed();
}

/// An index carries no attribute, and so declares no stride that its four
/// bytes could be held against: its layout is well formed without being a
/// packed one.
pub proof fn lemma_index_has_no_attribute()
    ensures
        <u32 as Vertex>::layout().len() == 0,
        well_formed_layout(<u32 as Vertex>::layout(), <u32 as Vertex>::byte_size()),
        !tightly_packed(<u32 as Vertex>::layout(), <u32 as Vertex>::byte_size()),
{
}

/// The owner of one vertex array handle of the driver. The handle is the one
/// that the driver gave out, which is never zero, until `delete` gives it
/// back; from then on it is zero.
pub struct VertexArrayObject {
    id: u32,
}

impl View for VertexArrayObject {
    type V = u32;

    /// The handle that is held, zero for none.
    closed spec fn view(&self) -> u32 {
        self.id
    }
}

impl VertexArrayObject {
    /// Takes charge of the handle that the driver gave out when it was asked
    /// for one vertex array. Handle zero is the driver's way of saying that it
    /// has none to give.
    pub fn new(generated: u32) -> (made: Result<VertexArrayObject, GlError>)
        ensures
            generated == 0 ==> made == Err::<VertexArrayObject, GlError>(
                GlError::VertexArrayNotGenerated,
            ),
            generated != 0 ==> made is Ok && made->Ok_0@ == generated,
    {
        if generated == 0 {
            return Err(GlError::VertexArrayNotGenerated);
        }
        Ok(VertexArrayObject { id: generated })
    }

    /// Takes charge of a freshly generated handle as `new` does, and hands
    /// out the request that makes the new vertex array the current one.
    pub fn new_and_bind(generated: u32) -> (made: Result<(VertexArrayObject, DriverCall), GlError>)
        ensures
            generated == 0 ==> made == Err::<(VertexArrayObject, DriverCall), GlError>(
                GlError::VertexArrayNotGenerated,
            ),
            generated != 0 ==> made is Ok && made->Ok_0.0@ == generated && made->Ok_0.1
                == DriverCall::BindVertexArray(generated),
    {
        let mut vao = VertexArrayObject::new(generated)?;
        let call = vao.bind();
        Ok((vao, call))
    }

    /// The handle that is held, zero once it has been given back.
    pub fn get_vertex_array_id(&self) -> (id: u32)
        ensures
            id == self@,
    {
        self.id
    }
}

impl Bindable for VertexArrayObject {
    open spec fn bind_request(&self) -> DriverCall {
        DriverCall::BindVertexArray(self@)
    }

    open spec fn unbind_request(&self) -> DriverCall {
        DriverCall::BindVertexArray(0)
    }

    open spec fn bound_when(&self, current: i32) -> bool {
        current == reported(self@)
    }

    fn bind(&mut self) -> (call: DriverCall)
        ensures
            call == DriverCall::BindVertexArray(old(self)@),
            final(self)@ == old(self)@,
    {
        DriverCall::BindVertexArray(self.id)
    }

    fn unbind(&mut self) -> (call: DriverCall)
        ensures
            call == DriverCall::BindVertexArray(0),
            final(self)@ == old(self)@,
    {
        DriverCall::BindVertexArray(0)
    }

    fn is_bound(&self, current: i32) -> (bound: bool)
        ensures
            bound == (current == reported(self@)),
    {
        let handle = self.id;
        let signed: i32 = #[verifier::truncate] (handle as i32);
        assert(handle <= 0x7fff_ffffu32 ==> signed as i64 == handle as i64) by (bit_vector)
            requires
                signed == handle as i32,
        ;
        assert(handle > 0x7fff_ffffu32 ==> signed as i64 == handle as i64 - 0x1_0000_0000i64)
            by (bit_vector)
            requires
                signed == handle as i32,
        ;
        current == signed
    }
}

impl Deletable for VertexArrayObject {
    open spec fn is_deleted(&self) -> bool {
        self@ == 0
    }

    open spec fn delete_request(&self) -> DriverCall {
        DriverCall::DeleteVertexArray(self@)
    }

    fn delete(&mut self) -> (call: Option<DriverCall>)
        ensures
            final(self)@ == 0,
            old(self)@ == 0 ==> call.is_none(),
            old(self)@ != 0 ==> call == Some(DriverCall::DeleteVertexArray(old(self)@)),
    {
        if self.id != 0 {
            let call = DriverCall::DeleteVertexArray(self.id);
            self.id = 0;
            Some(call)
        } else {
            None
        }
    }
}

impl VertexArrayObject {
    /// `bind` and `is_bound` agree. Once the driver has made current the
    /// handle that `bind` names, and reports it, this vertex array counts as
    /// bound, and another one does so only if it holds the same handle.
    pub proof fn lemma_bound_after_bind(self, other: VertexArrayObject)
        ensures
            self.bind_request() == DriverCall::BindVertexArray(self@),
            self.bound_when(reported(self@)),
            other.bound_when(reported(self@)) <==> other@ == self@,
    {
        lemma_reported_is_injective(other@, self@);
    }

    /// `unbind` and `is_bound` agree. Once the driver has cleared the
    /// binding as `unbind` asks, and reports handle zero, no vertex array that
    /// still holds its handle counts as bound.
    pub proof fn lemma_unbound_after_unbind(self)
        ensures
            self.unbind_request() == DriverCall::BindVertexArray(0),
            self.bound_when(reported(0)) <==> self.is_deleted(),
    {
        lemma_reported_is_injective(self@, 0);
    }

    /// The driver has one slot for the current vertex array: whatever it
    /// reports, two vertex arrays that both count as bound hold the same
    /// handle.
    pub proof fn lemma_bound_is_unique(self, other: VertexArrayObject, current: i32)
        requires
            self.bound_when(current),
            other.bound_when(current),
        ensures
            self@ == other@,
    {
        lemma_reported_is_injective(self@, other@);
    }
}

} // verus!
