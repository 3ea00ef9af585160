use bulk_rows::row::Row;
use bulk_rows::slot::{AccessMode, Slot, TypeClass};
use bulk_rows::value::{Value, ValueKind};

#[test]
fn test_get_bool_correct_types() {
    let row = Row::from_values(vec![
        Value::Boolean(true),
        Value::Boolean(false),
        Value::Null,
    ]);

    // Test correct type
    assert_eq!(row.get_bool(0), Some(true));
    assert_eq!(row.get_bool(1), Some(false));

    // Test null value
    assert_eq!(row.get_bool(2), None);
}

#[test]
fn test_get_bool_unchecked_correct_types() {
    let row = Row::from_values(vec![
        Value::Boolean(false),
        Value::Boolean(true),
        Value::Null,
    ]);

    // Test correct type
    assert_eq!(row.get_bool_unchecked(0), Some(false));
    assert_eq!(row.get_bool_unchecked(1), Some(true));

    // Test null value
    assert_eq!(row.get_bool_unchecked(2), None);
}

#[test]
fn full_column_roundtrip() {
    let row = Row::new()
        .add_value(Value::Boolean(true))
        .add_value(Value::Int8(-8))
        .add_value(Value::Int16(-16))
        .add_value(Value::Int32(-32))
        .add_value(Value::Int64(-64))
        .add_value(Value::Uint8(8))
        .add_value(Value::Uint16(16))
        .add_value(Value::Uint32(32))
        .add_value(Value::Uint64(64))
        .add_value(Value::Float32(1.5f32.to_bits()))
        .add_value(Value::Float64(2.25f64.to_bits()))
        .add_value(Value::Binary(vec![1, 2, 3]))
        .add_value(Value::String("text".to_string()))
        .add_value(Value::Date(19000))
        .add_value(Value::Datetime(1_700_000_000_000))
        .add_value(Value::TimestampSecond(1_700_000_000))
        .add_value(Value::TimestampMillisecond(1_700_000_000_123))
        .add_value(Value::TimestampMicrosecond(1_700_000_000_123_456))
        .add_value(Value::TimestampNanosecond(1_700_000_000_123_456_789))
        .add_value(Value::TimeSecond(86_399))
        .add_value(Value::TimeMillisecond(86_399_999))
        .add_value(Value::TimeMicrosecond(86_399_999_999))
        .add_value(Value::TimeNanosecond(86_399_999_999_999))
        .add_value(Value::Decimal128(123_456_789_012_345_678_901_234_567i128))
        .add_value(Value::Json("{\"k\":1}".to_string()));

    assert_eq!(row.len(), 25);
    assert!(!row.is_empty());

    assert_eq!(row.get_bool(0), Some(true));
    assert_eq!(row.get_i8(1), Some(-8));
    assert_eq!(row.get_i16(2), Some(-16));
    assert_eq!(row.get_i32(3), Some(-32));
    assert_eq!(row.get_i64(4), Some(-64));
    assert_eq!(row.get_u8(5), Some(8));
    assert_eq!(row.get_u16(6), Some(16));
    assert_eq!(row.get_u32(7), Some(32));
    assert_eq!(row.get_u64(8), Some(64));
    assert_eq!(row.get_f32(9), Some(1.5f32.to_bits()));
    assert_eq!(f32::from_bits(row.get_f32(9).unwrap()), 1.5f32);
    assert_eq!(row.get_f64(10), Some(2.25f64.to_bits()));
    assert_eq!(f64::from_bits(row.get_f64(10).unwrap()), 2.25f64);
    assert_eq!(row.get_binary(11), Some(vec![1, 2, 3]));
    assert_eq!(row.get_string(12), Some("text".to_string()));
    assert_eq!(row.get_date(13), Some(19000));
    assert_eq!(row.get_datetime(14), Some(1_700_000_000_000));
    assert_eq!(row.get_timestamp(15), Some(1_700_000_000));
    assert_eq!(row.get_timestamp(16), Some(1_700_000_000_123));
    assert_eq!(row.get_timestamp(17), Some(1_700_000_000_123_456));
    assert_eq!(row.get_timestamp(18), Some(1_700_000_000_123_456_789));
    assert_eq!(row.get_time32(19), Some(86_399));
    assert_eq!(row.get_time32(20), Some(86_399_999));
    assert_eq!(row.get_time64(21), Some(86_399_999_999));
    assert_eq!(row.get_time64(22), Some(86_399_999_999_999));
    assert_eq!(
        row.get_decimal128(23),
        Some(123_456_789_012_345_678_901_234_567i128)
    );

    // The unchecked variants agree on in-range indices.
    assert_eq!(row.get_bool_unchecked(0), Some(true));
    assert_eq!(row.get_i8_unchecked(1), Some(-8));
    assert_eq!(row.get_i16_unchecked(2), Some(-16));
    assert_eq!(row.get_i32_unchecked(3), Some(-32));
    assert_eq!(row.get_i64_unchecked(4), Some(-64));
    assert_eq!(row.get_u8_unchecked(5), Some(8));
    assert_eq!(row.get_u16_unchecked(6), Some(16));
    assert_eq!(row.get_u32_unchecked(7), Some(32));
    assert_eq!(row.get_u64_unchecked(8), Some(64));
    assert_eq!(row.get_f32_unchecked(9), Some(1.5f32.to_bits()));
    assert_eq!(row.get_f64_unchecked(10), Some(2.25f64.to_bits()));
    assert_eq!(row.get_binary_unchecked(11), Some(vec![1, 2, 3]));
    assert_eq!(row.get_string_unchecked(12), Some("text".to_string()));
    assert_eq!(row.get_date_unchecked(13), Some(19000));
    assert_eq!(row.get_datetime_unchecked(14), Some(1_700_000_000_000));
    assert_eq!(row.get_timestamp_unchecked(15), Some(1_700_000_000));
    assert_eq!(row.get_time32_unchecked(19), Some(86_399));
    assert_eq!(row.get_time64_unchecked(21), Some(86_399_999_999));
    assert_eq!(
        row.get_decimal128_unchecked(23),
        Some(123_456_789_012_345_678_901_234_567i128)
    );
}

#[test]
fn null_reads_as_no_value_for_every_type() {
    let row = Row::from_values(vec![Value::Null]);
    assert_eq!(row.get_bool(0), None);
    assert_eq!(row.get_i8(0), None);
    assert_eq!(row.get_i16(0), None);
    assert_eq!(row.get_i32(0), None);
    assert_eq!(row.get_i64(0), None);
    assert_eq!(row.get_u8(0), None);
    assert_eq!(row.get_u16(0), None);
    assert_eq!(row.get_u32(0), None);
    assert_eq!(row.get_u64(0), None);
    assert_eq!(row.get_f32(0), None);
    assert_eq!(row.get_f64(0), None);
    assert_eq!(row.get_binary(0), None);
    assert_eq!(row.get_string(0), None);
    assert_eq!(row.get_date(0), None);
    assert_eq!(row.get_datetime(0), None);
    assert_eq!(row.get_timestamp(0), None);
    assert_eq!(row.get_time32(0), None);
    assert_eq!(row.get_time64(0), None);
    assert_eq!(row.get_decimal128(0), None);
}

#[test]
fn out_of_range_reads_as_no_value() {
    let row = Row::from_values(vec![Value::Boolean(true)]);
    assert_eq!(row.get_bool(1), None);
    assert_eq!(row.get_string(7), None);
    let mut row = row;
    assert_eq!(row.take_string(9), None);
    assert_eq!(row.take_binary(9), None);
    assert_eq!(row.len(), 1);
}

#[test]
fn mismatch_is_loud_in_development_and_quiet_in_production() {
    let row = Row::from_values(vec![Value::Int32(42)]);

    // Development configuration: the condition is raised, naming the
    // index, the expected type, and the actual stored case.
    match row.read_bool(0).resolve(AccessMode::Development) {
        Err(mismatch) => {
            assert_eq!(mismatch.index, 0);
            assert_eq!(mismatch.expected, TypeClass::Boolean);
            assert_eq!(mismatch.actual, ValueKind::Int32);
        }
        Ok(_) => panic!("a development-mode mismatch must be surfaced"),
    }

    // Production configuration: the same access degrades to "no value".
    assert_eq!(
        row.read_bool(0).resolve(AccessMode::Production),
        Ok(None),
    );
    assert_eq!(row.get_bool(0), None);
}

#[test]
fn mismatch_against_stored_string_names_the_actual_case() {
    let row = Row::from_values(vec![Value::String("test".to_string())]);

    match row.read_bool(0).resolve(AccessMode::Development) {
        Err(mismatch) => {
            assert_eq!(mismatch.index, 0);
            assert_eq!(mismatch.expected, TypeClass::Boolean);
            assert_eq!(mismatch.actual, ValueKind::String);
        }
        Ok(_) => panic!("a development-mode mismatch must be surfaced"),
    }
    assert_eq!(row.get_bool(0), None);
}

#[test]
fn read_reports_null_and_out_of_range_distinctly() {
    let row = Row::from_values(vec![Value::Null]);
    assert!(matches!(row.read_i64(0), Slot::Null));
    assert!(matches!(row.read_i64(1), Slot::OutOfRange));
    assert!(matches!(
        Row::from_values(vec![Value::Int64(7)]).read_i64(0),
        Slot::Present(7)
    ));
}

#[test]
fn take_string_leaves_null_and_second_take_finds_nothing() {
    let mut row = Row::from_values(vec![
        Value::String("moved out".to_string()),
        Value::Int32(1),
    ]);

    assert_eq!(row.take_string(0), Some("moved out".to_string()));
    // The slot now holds null: nothing further can be taken or read there.
    assert_eq!(row.take_string(0), None);
    assert_eq!(row.get_string(0), None);
    assert!(matches!(row.read_string(0), Slot::Null));
    // The rest of the row is untouched.
    assert_eq!(row.get_i32(1), Some(1));
}

#[test]
fn take_binary_leaves_null_and_second_take_finds_nothing() {
    let mut row = Row::from_values(vec![Value::Binary(vec![9, 9])]);
    assert_eq!(row.take_binary(0), Some(vec![9, 9]));
    assert_eq!(row.take_binary(0), None);
    assert_eq!(row.get_binary(0), None);
}

#[test]
fn take_unchecked_variants_move_the_payload_out() {
    let mut row = Row::from_values(vec![
        Value::String("s".to_string()),
        Value::Binary(vec![4, 5]),
    ]);
    assert_eq!(row.take_string_unchecked(0), Some("s".to_string()));
    assert_eq!(row.take_binary_unchecked(1), Some(vec![4, 5]));
    assert_eq!(row.get_string(0), None);
    assert_eq!(row.get_binary(1), None);
}

#[test]
fn binary_access_reads_text_as_utf8_bytes() {
    let row = Row::from_values(vec![Value::String("héllo → wörld".to_string())]);
    assert_eq!(
        row.get_binary(0),
        Some("héllo → wörld".as_bytes().to_vec())
    );
    assert_eq!(
        row.get_binary_unchecked(0),
        Some("héllo → wörld".as_bytes().to_vec())
    );

    let mut row = row;
    assert_eq!(
        row.take_binary(0),
        Some("héllo → wörld".as_bytes().to_vec())
    );
    // The take nulled the slot like any other take.
    assert_eq!(row.get_binary(0), None);
}

#[test]
fn binary_access_rejects_other_cases() {
    let row = Row::from_values(vec![Value::Int32(3)]);
    assert_eq!(row.get_binary(0), None);
    match row.read_binary(0).resolve(AccessMode::Development) {
        Err(mismatch) => {
            assert_eq!(mismatch.expected, TypeClass::Binary);
            assert_eq!(mismatch.actual, ValueKind::Int32);
        }
        Ok(_) => panic!("a development-mode mismatch must be surfaced"),
    }
}

#[test]
fn timestamp_access_is_resolution_generic_but_rejects_times() {
    let row = Row::from_values(vec![
        Value::TimestampSecond(1),
        Value::TimeSecond(2),
        Value::Datetime(3),
    ]);
    assert_eq!(row.get_timestamp(0), Some(1));
    // A time-of-day value is not a timestamp.
    assert_eq!(row.get_timestamp(1), None);
    // A datetime is its own case, never read as a timestamp.
    assert_eq!(row.get_timestamp(2), None);
    assert_eq!(row.get_time32(1), Some(2));
    assert_eq!(row.get_datetime(2), Some(3));
}

#[test]
fn row_construction_and_value_handoff() {
    let row = Row::with_capacity(4)
        .add_values(vec![Value::Uint8(1), Value::Uint8(2)])
        .add_value(Value::Null);
    assert_eq!(row.len(), 3);

    let values = row.into_values();
    assert_eq!(values.len(), 3);
    let again = Row::from_values(values);
    assert_eq!(again.get_u8(0), Some(1));
    assert_eq!(again.get_u8(1), Some(2));
    assert_eq!(again.get_u8(2), None);

    let empty = Row::new();
    assert!(empty.is_empty());
    assert_eq!(Row::default().len(), 0);
}

#[test]
fn cloned_rows_read_alike() {
    let row = Row::from_values(vec![
        Value::String("abc".to_string()),
        Value::Binary(vec![1]),
        Value::Int64(-5),
    ]);
    let copy = row.clone();
    assert_eq!(copy.get_string(0), row.get_string(0));
    assert_eq!(copy.get_binary(1), row.get_binary(1));
    assert_eq!(copy.get_i64(2), Some(-5));
}
