//! `Field`: the descriptor of a single column — its type, its name (possibly
//! empty for an anonymous column), and optional constraint and annotation
//! metadata. Fields are immutable values: every "with-" setter returns an
//! updated value and leaves no shared state behind.

use vstd::prelude::*;

use crate::types::DataType;

verus! {

/// The mathematical value of a `Field`: every attribute, with strings as
/// character sequences.
pub ghost struct FieldView {
    pub data_type: DataType,
    pub name: Seq<char>,
    pub is_not_null: Option<bool>,
    pub is_primary_key: Option<bool>,
    pub foreign_key: Option<Seq<char>>,
    pub description: Option<Seq<char>>,
}

/// The abstract value of an optional owned string.
pub open spec fn view_opt_string(s: Option<String>) -> Option<Seq<char>> {
    match s {
        Some(x) => Some(x@),
        None => None,
    }
}

/// A column descriptor: type, name, and optional metadata.
///
/// `is_not_null` and `is_primary_key` are tri-state: `None` means the
/// constraint is unspecified, which is distinct from an explicit
/// `Some(false)`. `foreign_key` (by convention `"<table>(<column>)"`) and
/// `description` are free-form annotations; none of the metadata is
/// validated here — this model only records what was declared.
#[derive(Clone, Debug, PartialEq, Eq, Hash)]
pub struct Field {
    pub data_type: DataType,
    pub name: String,
    /// Whether the column carries a NOT NULL constraint, if declared.
    pub is_not_null: Option<bool>,
    /// Whether the column participates in a primary key, if declared.
    pub is_primary_key: Option<bool>,
    /// A foreign-key reference, e.g. `"other_table(column)"`.
    pub foreign_key: Option<String>,
    /// A free-text description of the column.
    pub description: Option<String>,
}

impl View for Field {
    type V = FieldView;

    open spec fn view(&self) -> FieldView {
        FieldView {
            data_type: self.data_type,
            name: self.name@,
            is_not_null: self.is_not_null,
            is_primary_key: self.is_primary_key,
            foreign_key: view_opt_string(self.foreign_key),
            description: view_opt_string(self.description),
        }
    }
}

/// The value of a field with the given name and type and no metadata.
pub open spec fn plain_field_view(name: Seq<char>, data_type: DataType) -> FieldView {
    FieldView {
        data_type,
        name,
        is_not_null: None,
        is_primary_key: None,
        foreign_key: None,
        description: None,
    }
}

/// The value of an anonymous field of the given type.
pub open spec fn unnamed_field_view(data_type: DataType) -> FieldView {
    plain_field_view(Seq::empty(), data_type)
}

impl Field {
    /// Construct a field with the given name and type; all optional
    /// metadata starts out unset.
    pub fn new(name: &str, data_type: DataType) -> (r: Field)
        ensures
            r@ == plain_field_view(name@, data_type),
    {
        Field {
            data_type,
            name: name.to_owned(),
            is_not_null: None,
            is_primary_key: None,
            foreign_key: None,
            description: None,
        }
    }

    /// Construct a field with the given type and name; all optional
    /// metadata starts out unset. Same as `new` with the arguments flipped.
    pub fn with_name(data_type: DataType, name: &str) -> (r: Field)
        ensures
            r@ == plain_field_view(name@, data_type),
    {
        Field::new(name, data_type)
    }

    /// Construct an anonymous field (empty name) of the given type, as for
    /// the result of an expression with no alias.
    pub fn unnamed(data_type: DataType) -> (r: Field)
        ensures
            r@ == unnamed_field_view(data_type),
    {
        Field {
            data_type,
            name: String::new(),
            is_not_null: None,
            is_primary_key: None,
            foreign_key: None,
            description: None,
        }
    }

    /// The field's type.
    pub fn data_type(&self) -> (r: DataType)
        ensures
            r == self@.data_type,
    {
        self.data_type
    }

    /// Return this field with the NOT NULL constraint set to the given
    /// value; every other attribute is kept.
    pub fn with_not_null(self, is_not_null: bool) -> (r: Field)
        ensures
            r@ == (FieldView { is_not_null: Some(is_not_null), ..self@ }),
    {
        Field { is_not_null: Some(is_not_null), ..self }
    }

    /// Return this field with the primary-key flag set to the given value;
    /// every other attribute is kept.
    pub fn with_primary_key(self, is_primary_key: bool) -> (r: Field)
        ensures
            r@ == (FieldView { is_primary_key: Some(is_primary_key), ..self@ }),
    {
        Field { is_primary_key: Some(is_primary_key), ..self }
    }

    /// Return this field with the foreign-key reference set; every other
    /// attribute is kept.
    pub fn with_foreign_key(self, foreign_key: &str) -> (r: Field)
        ensures
            r@ == (FieldView { foreign_key: Some(foreign_key@), ..self@ }),
    {
        Field { foreign_key: Some(foreign_key.to_owned()), ..self }
    }

    /// Return this field with the description set; every other attribute
    /// is kept.
    pub fn with_description(self, description: &str) -> (r: Field)
        ensures
            r@ == (FieldView { description: Some(description@), ..self@ }),
    {
        Field { description: Some(description.to_owned()), ..self }
    }
}

/// The capability of reporting a data type and a name, so that generic
/// algorithms can accept anything column-like without depending on the
/// full `Field` shape.
pub trait FieldLike {
    /// The type this value reports.
    spec fn spec_data_type(&self) -> DataType;

    /// The name this value reports.
    spec fn spec_name(&self) -> Seq<char>;

    /// The value's data type.
    fn data_type(&self) -> (r: &DataType)
        ensures
            *r == self.spec_data_type(),
    ;

    /// The value's name.
    fn name(&self) -> (r: &str)
        ensures
            r@ == self.spec_name(),
    ;
}

impl FieldLike for Field {
    open spec fn spec_data_type(&self) -> DataType {
        self@.data_type
    }

    open spec fn spec_name(&self) -> Seq<char> {
        self@.name
    }

    fn data_type(&self) -> (r: &DataType) {
        &self.data_type
    }

    fn name(&self) -> (r: &str) {
        self.name.as_str()
    }
}

impl<'a, T: FieldLike> FieldLike for &'a T {
    open spec fn spec_data_type(&self) -> DataType {
        (**self).spec_data_type()
    }

    open spec fn spec_name(&self) -> Seq<char> {
        (**self).spec_name()
    }

    fn data_type(&self) -> (r: &DataType) {
        (**self).data_type()
    }

    fn name(&self) -> (r: &str) {
        (**self).name()
    }
}

/// A borrowed field wrapped for display in diagnostics, where only the
/// name is wanted.
pub struct FieldDisplay<'a>(pub &'a Field);

impl<'a> FieldDisplay<'a> {
    /// The text this wrapper displays: the field's name.
    pub fn to_text(&self) -> (r: String)
        ensures
            r@ == self.0@.name,
    {
        self.0.name.clone()
    }
}

} // verus!
