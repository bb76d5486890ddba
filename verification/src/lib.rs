//! A column/schema descriptor model: the metadata that describes the shape
//! of tabular data as it flows through a data-processing engine. A `Field`
//! describes one column (type, name, optional constraint and annotation
//! metadata); a `Schema` is an ordered sequence of fields with an optional
//! description; a wire form of both crosses process boundaries losslessly.

pub mod column;
pub mod field;
pub mod schema;
pub mod test_utils;
pub mod types;
pub mod wire;

pub use column::ColumnDesc;
pub use field::Field;
pub use field::FieldDisplay;
pub use field::FieldLike;
pub use schema::Schema;
pub use types::ArrayBuilderImpl;
pub use types::DataType;
pub use types::StructMember;
pub use types::StructType;
pub use wire::WireColumnDesc;
pub use wire::WireField;
