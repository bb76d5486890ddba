//! The slice of the type system that the catalog model reads: a column's
//! semantic type, the shape of a composite (struct) type, and the builder
//! descriptor handed out per column when columnar buffers are set up.

use vstd::prelude::*;

verus! {

/// The semantic type of a column. The catalog model treats a type as an
/// opaque token: it is compared for equality, copied, and passed along to
/// the array-builder layer, but never inspected further.
#[derive(Clone, Copy, Debug, PartialEq, Eq, Hash, Structural)]
pub enum DataType {
    Boolean,
    Int16,
    Int32,
    Int64,
    Decimal,
    Date,
    Varchar,
    Time,
    Timestamp,
    Interval,
    Bytea,
}

/// A builder for accumulating column values of one type, described by the
/// type it builds for and the initial capacity it was asked to reserve.
#[derive(Clone, Copy, Debug, PartialEq, Eq, Structural)]
pub struct ArrayBuilderImpl {
    /// The type of the values this builder accumulates.
    pub data_type: DataType,
    /// The initial capacity hint the builder was created with.
    pub capacity: usize,
}

impl DataType {
    /// Produce a builder for values of this type with the given capacity hint.
    pub fn create_array_builder(&self, capacity: usize) -> (b: ArrayBuilderImpl)
        ensures
            b.data_type == *self,
            b.capacity == capacity,
    {
        ArrayBuilderImpl { data_type: *self, capacity }
    }
}

/// One named member of a composite type.
#[derive(Clone, Debug)]
pub struct StructMember {
    /// The member's name.
    pub name: String,
    /// The member's type.
    pub data_type: DataType,
}

/// A composite type: an ordered sequence of named members.
#[derive(Clone, Debug)]
pub struct StructType {
    /// The members, in the type's declared order.
    pub members: Vec<StructMember>,
}

impl StructType {
    /// Build a composite type from its members, keeping their order.
    pub fn new(members: Vec<StructMember>) -> (t: StructType)
        ensures
            t.members@ == members@,
    {
        StructType { members }
    }
}

} // verus!
