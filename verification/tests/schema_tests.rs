use catalog_schema::DataType;
use catalog_schema::Field;
use catalog_schema::Schema;
use catalog_schema::StructMember;
use catalog_schema::StructType;
use catalog_schema::test_utils;

#[test]
fn test_schema_with_description() {
    // Test creating a schema with description
    let schema = Schema::new(vec![
        Field::new("id", DataType::Int32).with_primary_key(true),
        Field::new("name", DataType::Varchar),
    ])
    .with_description("User information table");

    assert_eq!(schema.fields.len(), 2);
    assert_eq!(schema.description, Some("User information table".to_string()));
}

#[test]
fn test_redshift_table_schema_example() {
    // Example schema for Redshift table with constraints
    let schema = Schema::new(vec![
        Field::new("order_id", DataType::Int64)
            .with_not_null(true)
            .with_primary_key(true)
            .with_description("Unique order identifier"),
        Field::new("customer_id", DataType::Int64)
            .with_not_null(true)
            .with_foreign_key("customers(id)")
            .with_description("Reference to customer"),
        Field::new("order_date", DataType::Date)
            .with_not_null(true)
            .with_description("Date the order was placed"),
        Field::new("total_amount", DataType::Decimal)
            .with_description("Total order amount"),
    ])
    .with_description("Orders table with customer references");

    assert_eq!(schema.fields.len(), 4);
    assert_eq!(schema.description, Some("Orders table with customer references".to_string()));

    // Verify primary key field
    assert_eq!(schema.fields[0].is_primary_key, Some(true));
    assert_eq!(schema.fields[0].is_not_null, Some(true));

    // Verify foreign key field
    assert_eq!(schema.fields[1].foreign_key, Some("customers(id)".to_string()));
    assert_eq!(schema.fields[1].is_not_null, Some(true));
}

#[test]
fn test_empty_schema() {
    let empty = Schema::empty();
    assert_eq!(empty.len(), 0);
    assert!(empty.is_empty());
    assert_eq!(empty.description, None);

    let default = Schema::default();
    assert_eq!(default.len(), 0);
    assert!(default.is_empty());
}

#[test]
fn test_new_preserves_order_and_count() {
    let fields = vec![
        Field::new("a", DataType::Int32),
        Field::new("b", DataType::Varchar),
        Field::new("c", DataType::Date),
    ];
    let schema = Schema::new(fields.clone());
    assert_eq!(schema.len(), 3);
    assert!(!schema.is_empty());
    let got = schema.fields();
    for (got_field, expected) in got.iter().zip(fields.iter()) {
        assert_eq!(got_field.name, expected.name);
        assert_eq!(got_field.data_type, expected.data_type);
    }
    let owned = schema.into_fields();
    assert_eq!(owned.len(), 3);
    assert_eq!(owned[1].name, "b");
}

#[test]
fn test_names_and_types_example() {
    let schema = Schema::new(vec![
        Field::new("id", DataType::Int64)
            .with_not_null(true)
            .with_primary_key(true),
        Field::new("name", DataType::Varchar),
    ]);
    assert_eq!(schema.names(), vec!["id".to_string(), "name".to_string()]);
    assert_eq!(schema.names_str(), vec!["id", "name"]);
    assert_eq!(schema.data_types(), vec![DataType::Int64, DataType::Varchar]);
    assert_eq!(schema.formatted_col_names(), "\"id\", \"name\"");
}

#[test]
fn test_formatted_col_names_edges() {
    assert_eq!(Schema::empty().formatted_col_names(), "");
    let one = Schema::new(vec![Field::new("only", DataType::Int32)]);
    assert_eq!(one.formatted_col_names(), "\"only\"");
}

#[test]
fn test_field_at() {
    let schema = Schema::new(vec![
        Field::new("x", DataType::Int32),
        Field::new("y", DataType::Varchar),
    ]);
    assert_eq!(schema.field_at(0).name, "x");
    assert_eq!(schema.field_at(1).name, "y");
}

#[test]
fn test_type_eq_ignores_names_and_metadata() {
    let a = Schema::new(vec![
        Field::new("a", DataType::Int32).with_not_null(true),
        Field::new("b", DataType::Varchar).with_description("left"),
    ]);
    let b = Schema::new(vec![
        Field::new("x", DataType::Int32),
        Field::new("y", DataType::Varchar).with_primary_key(true),
    ])
    .with_description("other");

    assert!(a.type_eq(&b));
    assert!(b.type_eq(&a));
    assert!(a.type_eq(&a));
}

#[test]
fn test_type_eq_mismatches() {
    let two = Schema::new(vec![
        Field::new("a", DataType::Int32),
        Field::new("b", DataType::Varchar),
    ]);
    let one = Schema::new(vec![Field::new("a", DataType::Int32)]);
    let swapped = Schema::new(vec![
        Field::new("a", DataType::Varchar),
        Field::new("b", DataType::Int32),
    ]);

    // Length mismatch
    assert!(!two.type_eq(&one));
    assert!(!one.type_eq(&two));
    // Positional mismatch
    assert!(!two.type_eq(&swapped));
}

#[test]
fn test_all_type_eq() {
    let none: Vec<Schema> = Vec::new();
    assert!(Schema::all_type_eq(&none));

    let s = Schema::new(vec![Field::new("a", DataType::Decimal)]);
    assert!(Schema::all_type_eq(&vec![s.clone()]));

    let t = Schema::new(vec![Field::new("b", DataType::Decimal)]);
    assert!(Schema::all_type_eq(&vec![s.clone(), t.clone()]));

    let u = Schema::new(vec![Field::new("c", DataType::Varchar)]);
    assert!(!Schema::all_type_eq(&vec![s, t, u]));
}

#[test]
fn test_create_array_builders() {
    let schema = Schema::new(vec![
        Field::new("id", DataType::Int64),
        Field::new("name", DataType::Varchar),
        Field::new("total", DataType::Decimal),
    ]);
    let builders = schema.create_array_builders(64);
    assert_eq!(builders.len(), 3);
    assert_eq!(builders[0].data_type, DataType::Int64);
    assert_eq!(builders[1].data_type, DataType::Varchar);
    assert_eq!(builders[2].data_type, DataType::Decimal);
    for builder in &builders {
        assert_eq!(builder.capacity, 64);
    }
}

#[test]
fn test_schema_to_wire() {
    let schema = Schema::new(vec![
        Field::new("id", DataType::Int64).with_primary_key(true),
        Field::new("name", DataType::Varchar),
    ]);
    let wire = schema.to_wire();
    assert_eq!(wire.len(), 2);
    assert_eq!(wire[0].data_type, Some(DataType::Int64));
    assert_eq!(wire[0].name, "id");
    assert_eq!(wire[0].is_primary_key, Some(true));
    assert_eq!(wire[1].data_type, Some(DataType::Varchar));
    assert_eq!(wire[1].name, "name");
    assert_eq!(wire[1].is_primary_key, None);
}

#[test]
fn test_from_struct_type() {
    let composite = StructType::new(vec![
        StructMember { name: "street".to_string(), data_type: DataType::Varchar },
        StructMember { name: "zip".to_string(), data_type: DataType::Int32 },
    ]);
    let schema = Schema::from_struct_type(&composite);
    assert_eq!(schema.len(), 2);
    assert_eq!(schema.names(), vec!["street".to_string(), "zip".to_string()]);
    assert_eq!(schema.data_types(), vec![DataType::Varchar, DataType::Int32]);
    assert_eq!(schema.fields[0].is_not_null, None);
    assert_eq!(schema.description, None);
}

#[test]
fn test_test_utils_shapes() {
    let two_ints = test_utils::ii();
    assert_eq!(two_ints.len(), 2);
    assert_eq!(two_ints.data_types(), vec![DataType::Int32, DataType::Int32]);
    assert_eq!(two_ints.fields[0].name, "");

    let three_ints = test_utils::iii();
    assert_eq!(three_ints.data_types(), vec![DataType::Int32; 3]);

    let three_strings = test_utils::sss();
    assert_eq!(three_strings.data_types(), vec![DataType::Varchar; 3]);

    let three_decimals = test_utils::ddd();
    assert_eq!(three_decimals.data_types(), vec![DataType::Decimal; 3]);

    let five_dates = test_utils::field_n::<5>(DataType::Date);
    assert_eq!(five_dates.len(), 5);
    assert_eq!(five_dates.data_types(), vec![DataType::Date; 5]);

    assert!(test_utils::ii().type_eq(&test_utils::ii()));
    assert!(!test_utils::ii().type_eq(&test_utils::iii()));
    assert!(!test_utils::iii().type_eq(&test_utils::sss()));
}
