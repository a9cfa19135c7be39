//! Column-type metadata: the wire protocol's type tags and the descriptor
//! that pairs a tag with its declared byte length. The codec only ever reads
//! the tag; the length is fixed by the tag itself.

use vstd::prelude::*;

verus! {

/// The wire column-type tags the surrounding protocol layer dispatches on.
/// The codec in this crate produces and consumes only `Guid`; the other tags
/// stand for the integer and text column types a descriptor may carry
/// instead.
#[derive(Clone, Copy, Debug, PartialEq, Eq)]
pub enum DataType {
    Bit,
    TinyInt,
    SmallInt,
    Int,
    BigInt,
    VarChar,
    NVarChar,
    Guid,
}

/// A column-type descriptor: the declared type tag of a wire column together
/// with its fixed byte length.
#[derive(Clone, Copy, Debug, PartialEq, Eq)]
pub struct TypeDescriptor {
    pub tag: DataType,
    pub size: u32,
}

impl TypeDescriptor {
    /// Build a descriptor from a tag and a byte length.
    pub fn new(tag: DataType, size: u32) -> (r: TypeDescriptor)
        ensures
            r.tag == tag,
            r.size == size,
    {
        TypeDescriptor { tag, size }
    }
}

} // verus!
