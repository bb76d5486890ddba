//! `Schema`: an ordered sequence of `Field`s plus an optional description —
//! the aggregate that describes the shape of one row of tabular data.
//! Order is significant: positions correspond to positions in row values,
//! so two schemas with the same fields in a different order are distinct.

use vstd::prelude::*;
use vstd::string::StringExecFns;

use crate::field::Field;
use crate::field::FieldView;
use crate::types::ArrayBuilderImpl;
use crate::types::DataType;
use crate::types::StructType;

verus! {

/// The mathematical value of a `Schema`: the ordered field values and the
/// optional description as a character sequence.
pub ghost struct SchemaView {
    pub fields: Seq<FieldView>,
    pub description: Option<Seq<char>>,
}

impl SchemaView {
    /// The schema's type signature: its data types in field order, with
    /// names and metadata erased.
    pub open spec fn type_sig(self) -> Seq<DataType> {
        self.fields.map_values(|f: FieldView| f.data_type)
    }
}

/// Two schemas are type-equal when their type signatures coincide: equal
/// length and, at every position, equal data types. Names, descriptions
/// and constraint metadata play no part.
pub open spec fn spec_type_eq(a: SchemaView, b: SchemaView) -> bool {
    a.type_sig() == b.type_sig()
}

/// Every schema in the sequence is type-equal to the first; vacuously true
/// of an empty sequence.
pub open spec fn spec_all_type_eq(schemas: Seq<SchemaView>) -> bool {
    forall|i: int| 0 <= i < schemas.len() ==> spec_type_eq(#[trigger] schemas[i], schemas[0])
}

/// The diagnostic listing of the given field names: each name wrapped in
/// double quotes, in order, separated by `", "`.
pub open spec fn spec_formatted_col_names(fields: Seq<FieldView>) -> Seq<char>
    decreases fields.len(),
{
    if fields.len() == 0 {
        Seq::empty()
    } else {
        let head = spec_formatted_col_names(fields.drop_last());
        let last = seq!['"'] + fields.last().name + seq!['"'];
        if fields.len() == 1 {
            last
        } else {
            head + seq![',', ' '] + last
        }
    }
}

/// An ordered collection of column descriptors with an optional free-text
/// description of the aggregate. A schema is an immutable value: it is
/// built once and read thereafter.
#[derive(Clone, Debug, PartialEq, Eq, Hash)]
pub struct Schema {
    pub fields: Vec<Field>,
    /// A free-text description of the schema.
    pub description: Option<String>,
}

impl View for Schema {
    type V = SchemaView;

    open spec fn view(&self) -> SchemaView {
        SchemaView {
            fields: self.fields@.map_values(|f: Field| f@),
            description: crate::field::view_opt_string(self.description),
        }
    }
}

impl Schema {
    /// The schema with no columns and no description.
    pub fn empty() -> (r: Schema)
        ensures
            r@.fields.len() == 0,
            r@.description is None,
    {
        Schema { fields: Vec::new(), description: None }
    }

    /// The number of columns.
    pub fn len(&self) -> (r: usize)
        ensures
            r == self@.fields.len(),
    {
        self.fields.len()
    }

    /// Whether the schema has no columns.
    pub fn is_empty(&self) -> (r: bool)
        ensures
            r == (self@.fields.len() == 0),
    {
        self.fields.is_empty()
    }

    /// Build a schema from an ordered sequence of fields, keeping their
    /// order and count; the description starts out unset.
    pub fn new(fields: Vec<Field>) -> (r: Schema)
        ensures
            r@.fields == fields@.map_values(|f: Field| f@),
            r@.description is None,
    {
        Schema { fields, description: None }
    }

    /// Return this schema with the description set; the fields are kept.
    pub fn with_description(self, description: &str) -> (r: Schema)
        ensures
            r@.fields == self@.fields,
            r@.description == Some(description@),
    {
        Schema { description: Some(description.to_owned()), ..self }
    }

    /// The field names, owned, in field order.
    pub fn names(&self) -> (r: Vec<String>)
        ensures
            r@.len() == self@.fields.len(),
            forall|i: int| 0 <= i < r@.len() ==> (#[trigger] r@[i])@ == self@.fields[i].name,
    {
        let mut names: Vec<String> = Vec::new();
        let mut i: usize = 0;
        while i < self.fields.len()
            invariant
                i <= self.fields.len(),
                names@.len() == i,
                forall|j: int| 0 <= j < i ==> (#[trigger] names@[j])@ == self@.fields[j].name,
            decreases self.fields.len() - i,
        {
            names.push(self.fields[i].name.clone());
            i += 1;
        }
        names
    }

    /// The field names, borrowed, in field order.
    pub fn names_str(&self) -> (r: Vec<&str>)
        ensures
            r@.len() == self@.fields.len(),
            forall|i: int| 0 <= i < r@.len() ==> (#[trigger] r@[i])@ == self@.fields[i].name,
    {
        let mut names: Vec<&str> = Vec::new();
        let mut i: usize = 0;
        while i < self.fields.len()
            invariant
                i <= self.fields.len(),
                names@.len() == i,
                forall|j: int| 0 <= j < i ==> (#[trigger] names@[j])@ == self@.fields[j].name,
            decreases self.fields.len() - i,
        {
            names.push(self.fields[i].name.as_str());
            i += 1;
        }
        names
    }

    /// The schema's data types in field order: exactly its type signature.
    pub fn data_types(&self) -> (r: Vec<DataType>)
        ensures
            r@ == self@.type_sig(),
    {
        let mut types: Vec<DataType> = Vec::new();
        let mut i: usize = 0;
        while i < self.fields.len()
            invariant
                i <= self.fields.len(),
                types@.len() == i,
                forall|j: int| 0 <= j < i ==> #[trigger] types@[j] == self@.fields[j].data_type,
            decreases self.fields.len() - i,
        {
            types.push(self.fields[i].data_type);
            i += 1;
        }
        proof {
            assert(types@ =~= self@.type_sig());
        }
        types
    }

    /// Borrowed access to the full ordered field sequence.
    pub fn fields(&self) -> (r: &[Field])
        ensures
            r@.map_values(|f: Field| f@) == self@.fields,
    {
        self.fields.as_slice()
    }

    /// Owning access to the full ordered field sequence.
    pub fn into_fields(self) -> (r: Vec<Field>)
        ensures
            r@.map_values(|f: Field| f@) == self@.fields,
    {
        self.fields
    }

    /// The field at the given position. Positional indices are expected to
    /// have been validated by the caller: an out-of-range access is a
    /// programming error, which the precondition rules out.
    pub fn field_at(&self, index: usize) -> (r: &Field)
        requires
            index < self@.fields.len(),
        ensures
            r@ == self@.fields[index as int],
    {
        &self.fields[index]
    }

    /// Create one array builder per field, in field order: each builder is
    /// keyed by the corresponding field's data type and carries the given
    /// capacity hint.
    pub fn create_array_builders(&self, capacity: usize) -> (r: Vec<ArrayBuilderImpl>)
        ensures
            r@.len() == self@.fields.len(),
            forall|i: int| 0 <= i < r@.len() ==> #[trigger] r@[i] == (ArrayBuilderImpl {
                data_type: self@.fields[i].data_type,
                capacity,
            }),
    {
        let mut builders: Vec<ArrayBuilderImpl> = Vec::new();
        let mut i: usize = 0;
        while i < self.fields.len()
            invariant
                i <= self.fields.len(),
                builders@.len() == i,
                forall|j: int| 0 <= j < i ==> #[trigger] builders@[j] == (ArrayBuilderImpl {
                    data_type: self@.fields[j].data_type,
                    capacity,
                }),
            decreases self.fields.len() - i,
        {
            builders.push(self.fields[i].data_type.create_array_builder(capacity));
            i += 1;
        }
        builders
    }

    /// Whether this schema and `other` have the same type signature: equal
    /// length and equal data types at every position, with names and
    /// metadata ignored.
    pub fn type_eq(&self, other: &Schema) -> (r: bool)
        ensures
            r == spec_type_eq(self@, other@),
    {
        if self.fields.len() != other.fields.len() {
            proof {
                assert(self@.type_sig().len() != other@.type_sig().len());
            }
            return false;
        }
        let n: usize = self.fields.len();
        let mut i: usize = 0;
        while i < n
            invariant
                i <= n,
                n == self@.fields.len(),
                n == other@.fields.len(),
                forall|j: int| 0 <= j < i ==> #[trigger] self@.fields[j].data_type
                    == other@.fields[j].data_type,
            decreases n - i,
        {
            if self.fields[i].data_type != other.fields[i].data_type {
                proof {
                    assert(self@.type_sig()[i as int] != other@.type_sig()[i as int]);
                }
                return false;
            }
            i += 1;
        }
        proof {
            assert(self@.type_sig() =~= other@.type_sig());
        }
        true
    }

    /// Whether every schema in `inputs` is type-equal to the first;
    /// vacuously true of an empty input.
    pub fn all_type_eq(inputs: &Vec<Schema>) -> (r: bool)
        ensures
            r == spec_all_type_eq(inputs@.map_values(|s: Schema| s@)),
    {
        let ghost views = inputs@.map_values(|s: Schema| s@);
        if inputs.len() == 0 {
            return true;
        }
        let first = &inputs[0];
        let mut i: usize = 1;
        while i < inputs.len()
            invariant
                1 <= i <= inputs.len(),
                views == inputs@.map_values(|s: Schema| s@),
                first@ == views[0],
                forall|j: int| 0 <= j < i ==> spec_type_eq(#[trigger] views[j], views[0]),
            decreases inputs.len() - i,
        {
            if !inputs[i].type_eq(first) {
                proof {
                    assert(views[i as int] == inputs@[i as int]@);
                    assert(!spec_type_eq(views[i as int], views[0]));
                }
                return false;
            }
            i += 1;
        }
        true
    }

    /// The quoted, comma-separated listing of the field names, for
    /// diagnostic and error messages.
    pub fn formatted_col_names(&self) -> (r: String)
        ensures
            r@ == spec_formatted_col_names(self@.fields),
    {
        proof {
            reveal_strlit("\"");
            reveal_strlit(", ");
        }
        let mut out = String::new();
        let mut i: usize = 0;
        while i < self.fields.len()
            invariant
                i <= self.fields.len(),
                out@ == spec_formatted_col_names(self@.fields.take(i as int)),
                "\""@ == seq!['"'],
                ", "@ == seq![',', ' '],
            decreases self.fields.len() - i,
        {
            if i > 0 {
                out.append(", ");
            }
            out.append("\"");
            out.append(self.fields[i].name.as_str());
            out.append("\"");
            proof {
                let taken = self@.fields.take(i + 1 as int);
                assert(taken.drop_last() =~= self@.fields.take(i as int));
                assert(taken.last() == self@.fields[i as int]);
                assert(out@ =~= spec_formatted_col_names(taken));
            }
            i += 1;
        }
        proof {
            assert(self@.fields.take(self@.fields.len() as int) =~= self@.fields);
        }
        out
    }

    /// Build a schema from a composite type: each named member becomes one
    /// field with no metadata, in the type's declared member order; the
    /// description starts out unset.
    pub fn from_struct_type(t: &StructType) -> (r: Schema)
        ensures
            r@.fields.len() == t.members@.len(),
            forall|i: int| 0 <= i < t.members@.len() ==> #[trigger] r@.fields[i]
                == crate::field::plain_field_view(
                t.members@[i].name@,
                t.members@[i].data_type,
            ),
            r@.description is None,
    {
        let mut fields: Vec<Field> = Vec::new();
        let mut i: usize = 0;
        while i < t.members.len()
            invariant
                i <= t.members.len(),
                fields@.len() == i,
                forall|j: int| 0 <= j < i ==> (#[trigger] fields@[j])@
                    == crate::field::plain_field_view(
                    t.members@[j].name@,
                    t.members@[j].data_type,
                ),
            decreases t.members.len() - i,
        {
            let member = &t.members[i];
            fields.push(Field::with_name(member.data_type, member.name.as_str()));
            i += 1;
        }
        Schema::new(fields)
    }
}

impl Default for Schema {
    /// The default schema is the empty one: no columns, no description.
    fn default() -> (r: Schema)
        ensures
            r@.fields.len() == 0,
            r@.description is None,
    {
        Schema::empty()
    }
}

/// Type equality is reflexive: every schema is type-equal to itself.
pub proof fn lemma_type_eq_reflexive(s: SchemaView)
    ensures
        spec_type_eq(s, s),
{
}

/// Type equality is symmetric.
pub proof fn lemma_type_eq_symmetric(a: SchemaView, b: SchemaView)
    ensures
        spec_type_eq(a, b) == spec_type_eq(b, a),
{
}

/// Type-equal schemas have equal length: type equality requires it.
pub proof fn lemma_type_eq_equal_len(a: SchemaView, b: SchemaView)
    requires
        spec_type_eq(a, b),
    ensures
        a.fields.len() == b.fields.len(),
{
    assert(a.type_sig().len() == a.fields.len());
    assert(b.type_sig().len() == b.fields.len());
}

/// Type equality ignores names, descriptions and constraint metadata: two
/// schemas of equal length with identical per-position data types are
/// type-equal, however the rest of their attributes differ.
pub proof fn lemma_type_eq_ignores_metadata(a: SchemaView, b: SchemaView)
    requires
        a.fields.len() == b.fields.len(),
        forall|i: int| 0 <= i < a.fields.len() ==> #[trigger] a.fields[i].data_type
            == b.fields[i].data_type,
    ensures
        spec_type_eq(a, b),
{
    assert(a.type_sig() =~= b.type_sig());
}

/// An empty collection of schemas is all-type-equal, vacuously.
pub proof fn lemma_all_type_eq_empty(schemas: Seq<SchemaView>)
    requires
        schemas.len() == 0,
    ensures
        spec_all_type_eq(schemas),
{
}

/// A single schema is always all-type-equal to itself.
pub proof fn lemma_all_type_eq_singleton(s: SchemaView)
    ensures
        spec_all_type_eq(seq![s]),
{
}

} // verus!
