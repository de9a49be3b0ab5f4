use vstd::prelude::*;

verus! {

/// Marker for vertex layouts.
pub trait Vertex {}

/// One attribute of a vertex layout.
#[derive(PartialEq, Eq, Structural, Clone, Copy, Debug)]
pub enum Attribute {
    Vec3F32,
    Vec2F32,
}

impl Attribute {
    /// Size in bytes of one attribute of this kind.
    pub open spec fn spec_byte_size(self) -> nat {
        match self {
            Attribute::Vec3F32 => 12,
            Attribute::Vec2F32 => 8,
        }
    }

}

} // verus!
