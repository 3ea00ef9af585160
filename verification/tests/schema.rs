use bulk_rows::schema::{
    Column, ColumnDataType, DataTypeExtension, SemanticType, TableSchema, TableSchemaBuilderError,
};

#[test]
fn builder_requires_the_table_name() {
    assert_eq!(
        TableSchema::builder().build().unwrap_err(),
        TableSchemaBuilderError::UninitializedField
    );

    let schema = TableSchema::builder()
        .name("cpu_metrics".to_string())
        .build()
        .unwrap();
    assert_eq!(schema.name(), "cpu_metrics");
    assert!(schema.columns().is_empty());
}

#[test]
fn builder_accepts_a_seed_column_list() {
    let seed = vec![Column {
        name: "host".to_string(),
        data_type: ColumnDataType::String,
        semantic_type: SemanticType::Tag,
        data_type_extension: None,
        nullable: false,
    }];
    let schema = TableSchema::builder()
        .name("t".to_string())
        .columns(seed)
        .build()
        .unwrap();
    assert_eq!(schema.columns().len(), 1);
    assert_eq!(schema.columns()[0].name, "host");
}

#[test]
fn fluent_accumulation_keeps_order_and_roles() {
    let schema = TableSchema::builder()
        .name("sensor_data".to_string())
        .build()
        .unwrap()
        .add_tag("device".to_string(), ColumnDataType::String, false)
        .add_timestamp("ts".to_string(), ColumnDataType::TimestampMillisecond)
        .add_field("temperature".to_string(), ColumnDataType::Float64, true)
        .add_decimal128_field("balance".to_string(), 38, 10, true);

    assert_eq!(schema.name(), "sensor_data");
    let columns = schema.columns();
    assert_eq!(columns.len(), 4);

    assert_eq!(columns[0].name, "device");
    assert_eq!(columns[0].data_type, ColumnDataType::String);
    assert_eq!(columns[0].semantic_type, SemanticType::Tag);
    assert_eq!(columns[0].data_type_extension, None);
    assert!(!columns[0].nullable);

    assert_eq!(columns[1].name, "ts");
    assert_eq!(columns[1].data_type, ColumnDataType::TimestampMillisecond);
    assert_eq!(columns[1].semantic_type, SemanticType::Timestamp);
    // A timestamp column is always required to be non-null.
    assert!(!columns[1].nullable);

    assert_eq!(columns[2].name, "temperature");
    assert_eq!(columns[2].semantic_type, SemanticType::Field);
    assert!(columns[2].nullable);

    assert_eq!(columns[3].name, "balance");
    assert_eq!(columns[3].data_type, ColumnDataType::Decimal128);
    assert_eq!(columns[3].semantic_type, SemanticType::Field);
    assert_eq!(
        columns[3].data_type_extension,
        Some(DataTypeExtension::Decimal128 {
            precision: 38,
            scale: 10
        })
    );
}

#[test]
fn schemas_and_columns_clone_field_for_field() {
    let schema = TableSchema::builder()
        .name("t".to_string())
        .build()
        .unwrap()
        .add_tag("k".to_string(), ColumnDataType::Uint64, true);
    let copy = schema.clone();
    assert_eq!(copy.name(), "t");
    assert_eq!(copy.columns().len(), 1);
    let column = copy.columns()[0].clone();
    assert_eq!(column.name, "k");
    assert_eq!(column.data_type, ColumnDataType::Uint64);
    assert!(column.nullable);
}
