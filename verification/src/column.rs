//! Column descriptors as a catalog resolver supplies them, and the
//! constructions that derive a `Field` from one: the type, name and
//! description are copied, and all constraint metadata starts out unset.

use vstd::prelude::*;
use vstd::string::StringExecFns;

use crate::field::Field;
use crate::field::FieldView;
use crate::field::view_opt_string;
use crate::types::DataType;

verus! {

/// What this model reads of a catalog column descriptor: the column's
/// type, its name, and an optional free-text description.
#[derive(Clone, Debug)]
pub struct ColumnDesc {
    pub data_type: DataType,
    pub name: String,
    /// A free-text description of the column.
    pub description: Option<String>,
}

/// The field a column descriptor is derived into: type, name and
/// description copied, constraint metadata reset to unset.
pub open spec fn field_of_column_desc(
    data_type: DataType,
    name: Seq<char>,
    description: Option<Seq<char>>,
) -> FieldView {
    FieldView {
        data_type,
        name,
        is_not_null: None,
        is_primary_key: None,
        foreign_key: None,
        description,
    }
}

impl Field {
    /// Derive a field from a column descriptor: the type, name and
    /// description are copied; all constraint metadata starts out unset.
    pub fn from_column_desc(desc: &ColumnDesc) -> (r: Field)
        ensures
            r@ == field_of_column_desc(desc.data_type, desc.name@, view_opt_string(desc.description)),
    {
        Field {
            data_type: desc.data_type,
            name: desc.name.clone(),
            is_not_null: None,
            is_primary_key: None,
            foreign_key: None,
            description: match &desc.description {
                Some(d) => Some(d.clone()),
                None => None,
            },
        }
    }

    /// Derive a field from a column descriptor as `from_column_desc` does,
    /// but with the name qualified as `"<table>.<column>"`, for
    /// disambiguation when columns of several tables are merged into one
    /// projection.
    pub fn from_with_table_name_prefix(desc: &ColumnDesc, table_name: &str) -> (r: Field)
        ensures
            r@ == field_of_column_desc(
                desc.data_type,
                table_name@ + seq!['.'] + desc.name@,
                view_opt_string(desc.description),
            ),
    {
        proof {
            reveal_strlit(".");
        }
        let mut name = String::from_str(table_name);
        name.append(".");
        name.append(desc.name.as_str());
        proof {
            assert(name@ =~= table_name@ + seq!['.'] + desc.name@);
        }
        Field {
            data_type: desc.data_type,
            name,
            is_not_null: None,
            is_primary_key: None,
            foreign_key: None,
            description: match &desc.description {
                Some(d) => Some(d.clone()),
                None => None,
            },
        }
    }
}

} // verus!
