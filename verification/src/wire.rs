//! The wire boundary: the serializable form of a `Field` and the lossless
//! conversions across it. The wire form keeps the tri-state constraint
//! flags exactly — an absent flag is distinguishable from one that is
//! present and false — and carries the mandatory data type as an optional
//! sub-message, as wire formats do; a message without it is corrupt and
//! may not be decoded into a `Field`.

use vstd::prelude::*;

use crate::field::Field;
use crate::field::FieldView;
use crate::field::view_opt_string;
use crate::types::DataType;

verus! {

/// The mathematical value of a `WireField`.
pub ghost struct WireFieldView {
    pub data_type: Option<DataType>,
    pub name: Seq<char>,
    pub is_not_null: Option<bool>,
    pub is_primary_key: Option<bool>,
    pub foreign_key: Option<Seq<char>>,
    pub description: Option<Seq<char>>,
}

/// The serializable form of a `Field`. `data_type` is mandatory in a
/// well-formed message but optional in the representation, as on the wire;
/// every other attribute round-trips unchanged.
#[derive(Clone, Debug, PartialEq, Eq)]
pub struct WireField {
    pub data_type: Option<DataType>,
    pub name: String,
    pub is_not_null: Option<bool>,
    pub is_primary_key: Option<bool>,
    pub foreign_key: Option<String>,
    pub description: Option<String>,
}

impl View for WireField {
    type V = WireFieldView;

    open spec fn view(&self) -> WireFieldView {
        WireFieldView {
            data_type: self.data_type,
            name: self.name@,
            is_not_null: self.is_not_null,
            is_primary_key: self.is_primary_key,
            foreign_key: view_opt_string(self.foreign_key),
            description: view_opt_string(self.description),
        }
    }
}

/// The wire form of a field value: the same attributes, with the data type
/// wrapped as the mandatory sub-message.
pub open spec fn wire_of_field(f: FieldView) -> WireFieldView {
    WireFieldView {
        data_type: Some(f.data_type),
        name: f.name,
        is_not_null: f.is_not_null,
        is_primary_key: f.is_primary_key,
        foreign_key: f.foreign_key,
        description: f.description,
    }
}

/// The field value a well-formed wire message decodes to.
pub open spec fn field_of_wire(w: WireFieldView) -> FieldView {
    FieldView {
        data_type: w.data_type.unwrap(),
        name: w.name,
        is_not_null: w.is_not_null,
        is_primary_key: w.is_primary_key,
        foreign_key: w.foreign_key,
        description: w.description,
    }
}

/// Clone an optional owned string, keeping its abstract value.
fn clone_opt_string(s: &Option<String>) -> (r: Option<String>)
    ensures
        view_opt_string(r) == view_opt_string(*s),
{
    match s {
        Some(x) => Some(x.clone()),
        None => None,
    }
}

impl Field {
    /// Encode this field in its wire form. The conversion is lossless:
    /// every attribute, the tri-state flags included, is carried over
    /// exactly, and the mandatory data type is present.
    pub fn to_wire(&self) -> (r: WireField)
        ensures
            r@ == wire_of_field(self@),
    {
        WireField {
            data_type: Some(self.data_type),
            name: self.name.clone(),
            is_not_null: self.is_not_null,
            is_primary_key: self.is_primary_key,
            foreign_key: clone_opt_string(&self.foreign_key),
            description: clone_opt_string(&self.description),
        }
    }

    /// Decode a field from its wire form. A message without the mandatory
    /// data type is corrupt; decoding it would be a fatal fault, and the
    /// precondition rules it out, so every caller must have established
    /// that the sub-message is present.
    pub fn from_wire(w: &WireField) -> (r: Field)
        requires
            w@.data_type is Some,
        ensures
            r@ == field_of_wire(w@),
    {
        let data_type = match w.data_type {
            Some(t) => t,
            None => vstd::pervasive::unreached(),
        };
        Field {
            data_type,
            name: w.name.clone(),
            is_not_null: w.is_not_null,
            is_primary_key: w.is_primary_key,
            foreign_key: clone_opt_string(&w.foreign_key),
            description: clone_opt_string(&w.description),
        }
    }
}

impl crate::schema::Schema {
    /// Encode the schema's fields in wire form, in field order. The
    /// schema-level description travels out-of-band with the containing
    /// message, so only the fields are listed.
    pub fn to_wire(&self) -> (r: Vec<WireField>)
        ensures
            r@.len() == self@.fields.len(),
            forall|i: int| 0 <= i < r@.len() ==> (#[trigger] r@[i])@ == wire_of_field(
                self@.fields[i],
            ),
    {
        let mut out: Vec<WireField> = Vec::new();
        let mut i: usize = 0;
        while i < self.fields.len()
            invariant
                i <= self.fields.len(),
                out@.len() == i,
                forall|j: int| 0 <= j < i ==> (#[trigger] out@[j])@ == wire_of_field(
                    self@.fields[j],
                ),
            decreases self.fields.len() - i,
        {
            out.push(self.fields[i].to_wire());
            i += 1;
        }
        out
    }
}

/// The serializable form of a column descriptor, as a catalog message
/// carries it: the mandatory column type as an optional sub-message, the
/// name, and an optional description.
#[derive(Clone, Debug, PartialEq, Eq)]
pub struct WireColumnDesc {
    pub column_type: Option<DataType>,
    pub name: String,
    pub description: Option<String>,
}

impl Field {
    /// Derive a field from a wire column descriptor: the type, name and
    /// description are copied; all constraint metadata starts out unset.
    /// A message without the mandatory column type is corrupt; decoding it
    /// would be a fatal fault, and the precondition rules it out.
    pub fn from_wire_column(desc: &WireColumnDesc) -> (r: Field)
        requires
            desc.column_type is Some,
        ensures
            r@ == crate::column::field_of_column_desc(
                desc.column_type.unwrap(),
                desc.name@,
                view_opt_string(desc.description),
            ),
    {
        let data_type = match desc.column_type {
            Some(t) => t,
            None => vstd::pervasive::unreached(),
        };
        Field {
            data_type,
            name: desc.name.clone(),
            is_not_null: None,
            is_primary_key: None,
            foreign_key: None,
            description: clone_opt_string(&desc.description),
        }
    }
}

/// Round trip: encoding any field value and decoding the result yields the
/// field back, on every attribute — and the encoded message always carries
/// the mandatory data type, so decoding is always permitted.
pub proof fn lemma_wire_round_trip(f: FieldView)
    ensures
        wire_of_field(f).data_type is Some,
        field_of_wire(wire_of_field(f)) == f,
{
}

} // verus!
