use bulk_rows::row::Row;
use bulk_rows::schema::{ColumnDataType, TableSchema};
use bulk_rows::source::{RowSource, SourceCursor};
use bulk_rows::value::Value;

fn numbered_rows(count: u64) -> Vec<Row> {
    let mut rows = Vec::new();
    let mut i = 0u64;
    while i < count {
        rows.push(
            Row::new()
                .add_value(Value::Uint64(i))
                .add_value(Value::TimestampMillisecond(1_700_000_000_000 + i as i64)),
        );
        i += 1;
    }
    rows
}

fn test_schema() -> TableSchema {
    TableSchema::builder()
        .name("points".to_string())
        .build()
        .unwrap()
        .add_tag("n".to_string(), ColumnDataType::Uint64, false)
        .add_timestamp("ts".to_string(), ColumnDataType::TimestampMillisecond)
}

#[test]
fn source_yields_exactly_row_count_rows_then_exhaustion() {
    let mut source = RowSource::from_rows(test_schema(), numbered_rows(3));
    source.init().unwrap();
    assert_eq!(source.row_count(), 3);
    assert_eq!(source.table_name(), "points");
    assert_eq!(source.schema().columns().len(), 2);

    let mut cursor = SourceCursor::start();
    for expected in 0..3u64 {
        let row = source.pull_row(&mut cursor).expect("a row before exhaustion");
        assert_eq!(row.get_u64(0), Some(expected));
    }
    // Exhaustion, and exhaustion again on every subsequent pull.
    assert!(source.pull_row(&mut cursor).is_none());
    assert!(source.pull_row(&mut cursor).is_none());
    assert_eq!(cursor.position, 3);
    source.close().unwrap();
}

#[test]
fn alternating_capabilities_keep_independent_cursors() {
    // Drive the structured-row and the wire-row capability in strict
    // alternation; each must see the full sequence, as if driven alone.
    let mut source = RowSource::from_rows(test_schema(), numbered_rows(4));
    let mut row_cursor = SourceCursor::start();
    let mut wire_cursor = SourceCursor::start();

    for expected in 0..4u64 {
        let row = source.pull_row(&mut row_cursor).expect("structured row");
        assert_eq!(row.get_u64(0), Some(expected));

        let wire = source.pull_wire(&mut wire_cursor).expect("wire row");
        let wire_row = Row::from_values(wire.values);
        assert_eq!(wire_row.get_u64(0), Some(expected));
        assert_eq!(
            wire_row.get_timestamp(1),
            Some(1_700_000_000_000 + expected as i64)
        );
    }
    assert!(source.pull_row(&mut row_cursor).is_none());
    assert!(source.pull_wire(&mut wire_cursor).is_none());
}

#[test]
fn a_single_pass_is_consumed_once() {
    // Two views over one source each get a full pass; a view that has
    // consumed its pass stays exhausted while a fresh view starts over.
    let mut source = RowSource::from_rows(test_schema(), numbered_rows(2));
    let mut first = SourceCursor::start();
    assert!(source.pull_row(&mut first).is_some());
    assert!(source.pull_row(&mut first).is_some());
    assert!(source.pull_row(&mut first).is_none());

    let mut fresh = SourceCursor::start();
    let row = source.pull_row(&mut fresh).expect("fresh pass");
    assert_eq!(row.get_u64(0), Some(0));
    assert!(source.pull_row(&mut first).is_none());
}

#[test]
fn empty_source_signals_exhaustion_at_once() {
    let mut source = RowSource::from_rows(test_schema(), Vec::new());
    assert_eq!(source.row_count(), 0);
    let mut cursor = SourceCursor::start();
    assert!(source.pull_row(&mut cursor).is_none());
    assert_eq!(cursor.position, 0);
}
