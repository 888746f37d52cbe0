//! What passes between a wrapper and the graphics driver: the requests that a
//! wrapper hands out, and the reasons for which it refuses to be built.

use vstd::prelude::*;

verus! {

/// A request to the driver. The wrappers only decide which request is due;
/// the owner of the graphics context carries it out.
#[derive(Clone, Copy, Debug, PartialEq, Eq, Structural)]
pub enum DriverCall {
    /// Make the vertex array with this handle the current one. Handle zero
    /// stands for no vertex array: it clears the binding.
    BindVertexArray(u32),
    /// Release the vertex array with this handle.
    DeleteVertexArray(u32),
}

/// Why a wrapper could not be built.
#[derive(Clone, Copy, Debug, PartialEq, Eq, Structural)]
pub enum GlError {
    /// Asked for a fresh vertex array, the driver answered with handle zero.
    VertexArrayNotGenerated,
}

impl GlError {
    /// The text that goes with each error.
    pub open spec fn message_text(self) -> Seq<char> {
        match self {
            GlError::VertexArrayNotGenerated => "Failed to generate a vertex array object"@,
        }
    }

    /// The error in words.
    pub fn message(&self) -> (text: String)
        ensures
            text@ == self.message_text(),
    {
        match self {
            GlError::VertexArrayNotGenerated => "Failed to generate a vertex array object".to_owned(),
        }
    }
}

/// The answer to a query for the current resource that names `handle`. The
/// driver answers such a query with a signed number of thirty-two bits, and a
/// handle is compared with it bit for bit: a handle above `i32::MAX` goes
/// with a negative answer.
pub open spec fn reported(handle: u32) -> i32 {
    if handle <= i32::MAX {
        handle as i32
    } else {
        (handle - 0x1_0000_0000) as i32
    }
}

/// A report loses nothing of the handle: two handles that are reported alike
/// are the same handle, and the handles up to `i32::MAX` are reported as
/// themselves.
pub proof fn lemma_reported_is_injective(a: u32, b: u32)
    ensures
        reported(a) == reported(b) <==> a == b,
        a <= i32::MAX <==> reported(a) >= 0,
        a <= i32::MAX ==> reported(a) == a,
{
}

} // verus!
