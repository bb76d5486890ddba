//! Ready-made schemas for tests: a schema of `N` anonymous fields of one
//! type, and a few fixed shapes that test code asks for by name.

use vstd::prelude::*;

use crate::field::Field;
use crate::field::unnamed_field_view;
use crate::schema::Schema;
use crate::types::DataType;

verus! {

/// A schema of `N` anonymous fields, all of the given type, with no
/// description.
pub fn field_n<const N: usize>(data_type: DataType) -> (s: Schema)
    ensures
        s@.fields.len() == N,
        forall|i: int| 0 <= i < N ==> #[trigger] s@.fields[i] == unnamed_field_view(data_type),
        s@.description is None,
{
    let mut fields: Vec<Field> = Vec::new();
    let mut i: usize = 0;
    while i < N
        invariant
            i <= N,
            fields@.len() == i,
            forall|j: int| 0 <= j < i ==> (#[trigger] fields@[j])@ == unnamed_field_view(data_type),
        decreases N - i,
    {
        fields.push(Field::unnamed(data_type));
        i += 1;
    }
    Schema::new(fields)
}

fn int32_n<const N: usize>() -> (s: Schema)
    ensures
        s@.fields.len() == N,
        forall|i: int| 0 <= i < N ==> #[trigger] s@.fields[i] == unnamed_field_view(
            DataType::Int32,
        ),
        s@.description is None,
{
    field_n::<N>(DataType::Int32)
}

/// A test schema of two anonymous int32 fields.
pub fn ii() -> (s: Schema)
    ensures
        s@.fields.len() == 2,
        forall|i: int| 0 <= i < 2 ==> #[trigger] s@.fields[i] == unnamed_field_view(
            DataType::Int32,
        ),
        s@.description is None,
{
    int32_n::<2>()
}

/// A test schema of three anonymous int32 fields.
pub fn iii() -> (s: Schema)
    ensures
        s@.fields.len() == 3,
        forall|i: int| 0 <= i < 3 ==> #[trigger] s@.fields[i] == unnamed_field_view(
            DataType::Int32,
        ),
        s@.description is None,
{
    int32_n::<3>()
}

fn varchar_n<const N: usize>() -> (s: Schema)
    ensures
        s@.fields.len() == N,
        forall|i: int| 0 <= i < N ==> #[trigger] s@.fields[i] == unnamed_field_view(
            DataType::Varchar,
        ),
        s@.description is None,
{
    field_n::<N>(DataType::Varchar)
}

/// A test schema of three anonymous varchar fields.
pub fn sss() -> (s: Schema)
    ensures
        s@.fields.len() == 3,
        forall|i: int| 0 <= i < 3 ==> #[trigger] s@.fields[i] == unnamed_field_view(
            DataType::Varchar,
        ),
        s@.description is None,
{
    varchar_n::<3>()
}

fn decimal_n<const N: usize>() -> (s: Schema)
    ensures
        s@.fields.len() == N,
        forall|i: int| 0 <= i < N ==> #[trigger] s@.fields[i] == unnamed_field_view(
            DataType::Decimal,
        ),
        s@.description is None,
{
    field_n::<N>(DataType::Decimal)
}

/// A test schema of three anonymous decimal fields.
pub fn ddd() -> (s: Schema)
    ensures
        s@.fields.len() == 3,
        forall|i: int| 0 <= i < 3 ==> #[trigger] s@.fields[i] == unnamed_field_view(
            DataType::Decimal,
        ),
        s@.description is None,
{
    decimal_n::<3>()
}

} // verus!
